//! Cooperative cancellation of model downloads.

use vstd::prelude::*;
use std::sync::Arc;
use std::sync::atomic::{AtomicBool, Ordering};
use crate::ocr::OcrError;
use crate::text::owned;

verus! {

broadcast use vstd::string::group_string_axioms;

/// A cancellation flag shared between the interface and a download worker:
/// every clone sees the same flag.
#[derive(Clone, Debug)]
pub struct OcrDownloadCancellation {
    cancelled: Arc<AtomicBool>,
}

/// What a download step does given whether it was cancelled: stop with a
/// cancellation error, or go on.
pub fn cancellation_outcome(cancelled: bool) -> (r: Result<(), OcrError>)
    ensures
        !cancelled ==> r is Ok,
        cancelled ==> (r matches Err(OcrError::Cancelled(m)) && m@ == "model download was cancelled"@),
{
    if cancelled {
        Err(OcrError::Cancelled(owned("model download was cancelled")))
    } else {
        Ok(())
    }
}

impl OcrDownloadCancellation {
    /// A flag that is not set.
    pub fn new() -> (r: Self) {
        OcrDownloadCancellation { cancelled: Arc::new(AtomicBool::new(false)) }
    }

    /// Sets the flag, for this value and all its clones.
    pub fn cancel(&self) {
        self.cancelled.store(true, Ordering::Release);
    }

    /// Whether the flag is set; another thread may set it at any time.
    pub fn is_cancelled(&self) -> (r: bool) {
        self.cancelled.load(Ordering::Acquire)
    }

    /// `Ok` unless the download was cancelled, in which case it reports the
    /// cancellation.
    pub fn ensure_active(&self) -> (r: Result<(), OcrError>)
        ensures
            r is Ok || (r matches Err(OcrError::Cancelled(m)) && m@ == "model download was cancelled"@),
    {
        cancellation_outcome(self.is_cancelled())
    }
}

impl Default for OcrDownloadCancellation {
    fn default() -> (r: Self) {
        OcrDownloadCancellation::new()
    }
}

} // verus!
