//! The write-buffering front end for atomic overwrites of files.
//!
//! A `Sponge` soaks up writes and, on an explicit commit, publishes
//! them to the destination file in one atomic step, after copying the
//! destination's permission and ownership metadata onto the buffered
//! file. The destination path is resolved to absolute form once, at
//! construction, against the working directory of that instant; it is
//! never re-resolved.
//!
//! A commit runs in this order: finalize the buffer, probe the
//! destination's metadata, carry it over (`plan_metadata` decides
//! what that means for each probe result), then publish by the
//! rename-based protocol of `RenameFlow`. Flushing the buffer never
//! touches the destination.

use vstd::prelude::*;
use crate::bytepath::{has_parent, is_absolute, parent_of, resolve_path, resolved, split_parent};
use crate::errs::ErrorKind;
use crate::persistable::{flow_init, Backing, PersistableTempFile, RenameFlow};

verus! {

/// A buffered, atomically committed overwrite of one destination
/// file.
pub struct Sponge {
    /// The destination, absolute, fixed at construction.
    pub dest: Vec<u8>,
    /// The destination's parent directory, where the temporary file
    /// lives so the final rename never crosses a filesystem.
    pub parent: Vec<u8>,
    /// The temporary file the writes are buffered into.
    pub file: PersistableTempFile,
}

impl Sponge {
    /// Create a `Sponge` that will eventually overwrite the file at
    /// `path`, which does not have to exist. `cwd` is the process
    /// working directory, captured once: a relative path is resolved
    /// against it here and never again. `unnamed_ok` reports whether
    /// the platform produced an unnamed handle in the parent
    /// directory; otherwise the named fallback backs the buffer.
    ///
    /// Fails with `NotFound` exactly when the resolved path has no
    /// parent to create the temporary file in — the root, or a path
    /// ending in a separator.
    pub fn new_for(cwd: &Vec<u8>, path: &Vec<u8>, unnamed_ok: bool) -> (r: Result<
        Sponge,
        ErrorKind,
    >)
        requires
            is_absolute(cwd@),
        ensures
            match r {
                Ok(s) => {
                    &&& has_parent(resolved(cwd@, path@))
                    &&& s.dest@ == resolved(cwd@, path@)
                    &&& s.parent@ == parent_of(resolved(cwd@, path@))
                    &&& s.file.content@ == Seq::<u8>::empty()
                    &&& s.file.backing == (if unnamed_ok {
                        Backing::Unnamed
                    } else {
                        Backing::Fallback
                    })
                },
                Err(k) => !has_parent(resolved(cwd@, path@)) && k == ErrorKind::NotFound,
            },
    {
        let dest = resolve_path(cwd, path);
        let parent = match split_parent(&dest) {
            Ok(pair) => pair.0,
            Err(k) => {
                return Err(k);
            },
        };
        Ok(Sponge { dest, parent, file: PersistableTempFile::new_in(unnamed_ok) })
    }

    /// Buffer bytes for the eventual commit. The destination is not
    /// touched.
    pub fn write(&mut self, buf: &Vec<u8>) -> (n: usize)
        ensures
            final(self).file.content@ == old(self).file.content@ + buf@,
            final(self).file.backing == old(self).file.backing,
            final(self).dest@ == old(self).dest@,
            final(self).parent@ == old(self).parent@,
            n == buf@.len(),
    {
        self.file.write(buf)
    }

    /// Consume the `Sponge` and begin publishing the buffered content
    /// at the destination: the rename-based protocol, starting at its
    /// first step, carrying exactly the buffered bytes. Metadata must
    /// already have been carried over as `plan_metadata` directed.
    pub fn commit(self) -> (f: RenameFlow)
        ensures
            f@ == flow_init(self.file.backing, self.file.content@, self.dest@, self.parent@),
    {
        let Sponge { dest, parent, file } = self;
        file.persist_by_rename(dest, parent)
    }
}

/// What probing the destination's metadata reported, just before
/// publication.
#[derive(Clone, Copy, Debug, PartialEq, Eq, Structural)]
pub enum MetadataProbe {
    /// The destination exists with these permission bits, owner and
    /// group.
    Found { mode: u32, uid: u32, gid: u32 },
    /// The destination does not exist.
    Missing,
    /// The probe itself failed.
    Unreadable,
}

/// What a commit must do about the destination's metadata.
#[derive(Clone, Copy, Debug, PartialEq, Eq, Structural)]
pub enum MetadataPlan {
    /// Apply exactly these permission bits, owner and group to the
    /// temporary file before publishing.
    Apply { mode: u32, uid: u32, gid: u32 },
    /// Nothing to carry over: first-time creation keeps the platform
    /// defaults.
    Skip,
    /// Abort the commit and surface the probe failure.
    Abort,
}

/// The metadata-transfer decision of a commit. An existing
/// destination has its permission bits, owner and group carried over
/// exactly, as they were at the probe. A missing destination is not
/// an error: there is nothing to copy, and the commit goes on. A
/// failed probe aborts the commit — metadata fidelity is never
/// silently given up.
pub fn plan_metadata(probe: &MetadataProbe) -> (p: MetadataPlan)
    ensures
        match *probe {
            MetadataProbe::Found { mode, uid, gid } => p == MetadataPlan::Apply { mode, uid, gid },
            MetadataProbe::Missing => p == MetadataPlan::Skip,
            MetadataProbe::Unreadable => p == MetadataPlan::Abort,
        },
{
    match *probe {
        MetadataProbe::Found { mode, uid, gid } => MetadataPlan::Apply { mode, uid, gid },
        MetadataProbe::Missing => MetadataPlan::Skip,
        MetadataProbe::Unreadable => MetadataPlan::Abort,
    }
}

/// Interpret a platform return code where zero means success and
/// anything else reports a failure.
pub fn zero_success(code: i32) -> (r: Result<(), ErrorKind>)
    ensures
        match r {
            Ok(()) => code == 0,
            Err(k) => code != 0 && k == ErrorKind::Io,
        },
{
    if code == 0 {
        Ok(())
    } else {
        Err(ErrorKind::Io)
    }
}

} // verus!
