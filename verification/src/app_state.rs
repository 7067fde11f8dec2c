//! Application-wide states and capabilities.

use vstd::prelude::*;

verus! {

broadcast use vstd::string::group_string_axioms;

/// What the application is doing.
#[derive(Clone, Copy, Debug, PartialEq, Eq, Structural)]
pub enum AppState {
    Ready,
    Capturing,
    Recognizing,
}

/// The label shown for a state.
pub open spec fn state_label(state: AppState) -> Seq<char> {
    match state {
        AppState::Ready => "Ready"@,
        AppState::Capturing => "Capturing"@,
        AppState::Recognizing => "Recognizing"@,
    }
}

impl AppState {
    /// The label shown for the state.
    pub fn label(self) -> (r: &'static str)
        ensures
            r@ == state_label(self),
    {
        match self {
            AppState::Ready => "Ready",
            AppState::Capturing => "Capturing",
            AppState::Recognizing => "Recognizing",
        }
    }
}

/// Which features are available.
#[derive(Clone, Copy, Debug, PartialEq, Eq, Structural)]
pub struct CapabilityStatus {
    pub capture: bool,
    pub ocr: bool,
    pub annotation: bool,
}

impl Default for CapabilityStatus {
    /// Capture and annotation are available from the start; OCR once a
    /// model is installed.
    fn default() -> (s: Self)
        ensures
            s == (CapabilityStatus { capture: true, ocr: false, annotation: true }),
    {
        CapabilityStatus { capture: true, ocr: false, annotation: true }
    }
}

} // verus!
