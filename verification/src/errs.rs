//! Error classification for temp-file creation and persist operations.

use vstd::prelude::*;

verus! {

/// The kinds of failure a persist or creation operation can report.
#[derive(Clone, Copy, Debug, PartialEq, Eq, Structural)]
pub enum ErrorKind {
    /// The target path already holds a directory entry.
    AlreadyExists,
    /// The path (or a needed parent) does not exist.
    NotFound,
    /// The path contains a NUL byte and cannot name a file.
    InvalidPath,
    /// Every candidate sibling name collided with an existing entry.
    RetriesExhausted,
    /// Any other input/output failure, surfaced unchanged.
    Io,
}

} // verus!
