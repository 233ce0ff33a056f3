//! The errors that the library reports.
use vstd::prelude::*;

use crate::sys::{enotdir, spec_enotdir};

verus! {

/// Why an operation failed.
#[derive(Clone, Copy, Debug, PartialEq, Eq, Structural)]
pub enum Error {
    /// The system call failed with this error number, passed on unchanged.
    Os(i32),
    /// A descriptor was classified as something other than a directory.
    NotADirectory,
    /// The operation has no implementation on this system.
    Unsupported,
    /// Every candidate name of the atomic removal was taken.
    Exhausted,
    /// A path holds an embedded nul byte.
    InvalidInput,
}

impl Error {
    /// The error number that stands behind this error, if any.
    ///
    /// A classification failure reports `ENOTDIR`, as the system would.
    pub fn raw_os_error(&self) -> (r: Option<i32>)
        ensures
            r == match *self {
                Error::Os(e) => Some(e),
                Error::NotADirectory => Some(spec_enotdir()),
                _ => None,
            },
    {
        match *self {
            Error::Os(e) => Some(e),
            Error::NotADirectory => Some(enotdir()),
            _ => None,
        }
    }
}

} // verus!
