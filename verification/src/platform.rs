//! The operating system family the application runs on.

use vstd::prelude::*;

verus! {

/// The operating system family, which decides how captures, shortcuts and
/// labels work.
#[derive(Clone, Copy, Debug, PartialEq, Eq, Structural)]
pub enum Platform {
    Windows,
    MacOs,
    Linux,
    Other,
}

} // verus!
