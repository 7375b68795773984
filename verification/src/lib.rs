//! Atomic, crash-safe replacement of a file's contents.
//!
//! The core of the library is a verified model of the atomic-persist
//! protocol: how a temporary file acquires a name at the destination
//! path (directly, or through a randomly named same-directory sibling
//! that is renamed into place), and how a `Sponge` buffers writes and
//! publishes them in one atomic step.

use vstd::prelude::*;

pub mod bytepath;
pub mod errs;
pub mod fsmodel;
pub mod persistable;
pub mod sponge;
pub mod tempname;

verus! {

/// Upper bound on naming-collision retries while searching for a free
/// sibling path during a rename-based persist.
pub const RETRY_CAP: u32 = 32768;

} // verus!
