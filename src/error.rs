//! Errors of looper operations.
use vstd::prelude::*;

verus! {

/// The ways a looper operation can fail.
#[derive(Copy, Clone, Debug, PartialEq, Eq, Structural)]
pub enum Error {
    /// The platform returned no looper when asked to prepare one for the calling thread.
    PrepareLooperFailed,
}

/// Result of a looper operation.
pub type Result<T> = core::result::Result<T, Error>;

} // verus!
