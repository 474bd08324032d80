//! Failures that the boundary layer reports.

use vstd::prelude::*;

verus! {

/// Why an operation on a file handle was refused.
#[derive(Clone, Copy, Debug, PartialEq, Eq, Structural)]
pub enum Error {
    /// The path names no existing file. The native layer was not asked.
    InvalidPath,
    /// The native layer created a context for the file and reports it invalid.
    InvalidFile,
    /// The handle has been closed.
    UseAfterClose,
}

} // verus!
