//! The one way in which attaching a handler can fail.

use vstd::prelude::*;

verus! {

/// Why a handler could not be attached.
#[derive(Clone, Copy, PartialEq, Eq, Structural, Debug)]
pub enum Error {
    /// The alternate stack could not be set up, or the operating system
    /// refused a handler for one of the tracked signals.
    InstallFailed,
}

} // verus!
