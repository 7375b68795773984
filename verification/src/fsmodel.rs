//! A model of the destination directory tree.
//!
//! The persist protocol is driven by the outcomes of individual
//! filesystem operations (a link, a rename, a removal). Each operation
//! is atomic: the directory tree steps from one complete state to
//! another. `DirModel` captures such a state as a map from present
//! paths to their contents, and the functions here say which outcomes
//! an operation can have against a given state and what the state
//! becomes for each.

use vstd::prelude::*;

verus! {

/// One state of the directory tree: every present path, with the
/// content readable under it.
pub struct DirModel {
    pub files: Map<Seq<u8>, Seq<u8>>,
}

/// The observable outcome of one filesystem operation.
#[derive(Clone, Copy, Debug, PartialEq, Eq, Structural)]
pub enum FsOutcome {
    /// The operation took effect.
    Success,
    /// The target path already held an entry (a no-clobber link or an
    /// exclusive create refused).
    Occupied,
    /// Any other failure; the tree is unchanged.
    Failure,
}

/// What a reader polling `path` observes in the state `d`: the content
/// under that path, or nothing.
pub open spec fn entry(d: DirModel, path: Seq<u8>) -> Option<Seq<u8>> {
    if d.files.contains_key(path) {
        Some(d.files[path])
    } else {
        None
    }
}

/// The state after a no-clobber link of `content` at `path` with the
/// given outcome: only success changes the tree.
pub open spec fn link_effect(d: DirModel, path: Seq<u8>, content: Seq<u8>, oc: FsOutcome)
    -> DirModel {
    if oc == FsOutcome::Success {
        DirModel { files: d.files.insert(path, content) }
    } else {
        d
    }
}

/// Which outcomes a no-clobber link at `path` can have against `d`:
/// it succeeds only onto a free path, and reports the path occupied
/// only when it is.
pub open spec fn link_wf(d: DirModel, path: Seq<u8>, oc: FsOutcome) -> bool {
    &&& oc == FsOutcome::Success ==> !d.files.contains_key(path)
    &&& oc == FsOutcome::Occupied ==> d.files.contains_key(path)
}

/// The state after renaming `from` onto `to` with the given outcome.
/// A successful rename moves the entry in one atomic step,
/// overwriting anything at `to`; a failed one changes nothing.
pub open spec fn rename_effect(d: DirModel, from: Seq<u8>, to: Seq<u8>, oc: FsOutcome)
    -> DirModel {
    if oc == FsOutcome::Success {
        DirModel { files: d.files.remove(from).insert(to, d.files[from]) }
    } else {
        d
    }
}

/// A rename never reports the target occupied (it overwrites), and
/// succeeds only when the source entry exists.
pub open spec fn rename_wf(d: DirModel, from: Seq<u8>, oc: FsOutcome) -> bool {
    &&& oc != FsOutcome::Occupied
    &&& oc == FsOutcome::Success ==> d.files.contains_key(from)
}

/// The state after removing `path`: success drops the entry, failure
/// changes nothing.
pub open spec fn remove_effect(d: DirModel, path: Seq<u8>, oc: FsOutcome) -> DirModel {
    if oc == FsOutcome::Success {
        DirModel { files: d.files.remove(path) }
    } else {
        d
    }
}

} // verus!
