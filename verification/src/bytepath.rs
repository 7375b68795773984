//! Byte-level path handling.
//!
//! Unix paths are byte strings. The destination path a `Sponge` is
//! given is resolved to an absolute form once, at construction time;
//! the parent directory is then split off so the temporary file can be
//! created next to the destination. Both operations are defined here
//! over plain bytes, with exact contracts.

use vstd::prelude::*;
use crate::errs::ErrorKind;

verus! {

/// The path separator byte, `/`.
pub const SEP: u8 = 47;

/// An absolute path starts with a separator.
pub open spec fn is_absolute(p: Seq<u8>) -> bool {
    p.len() > 0 && p[0] == SEP
}

/// What resolving `path` against the working directory `cwd` yields:
/// an absolute path stays as it is; a relative one is appended to
/// `cwd`, with a separator inserted unless `cwd` already ends in one.
pub open spec fn resolved(cwd: Seq<u8>, path: Seq<u8>) -> Seq<u8> {
    if is_absolute(path) {
        path
    } else if cwd.len() > 0 && cwd[cwd.len() - 1] == SEP {
        cwd + path
    } else {
        cwd + seq![SEP] + path
    }
}

/// Resolve `path` to an absolute path, relative to `cwd`.
///
/// `cwd` must itself be absolute (a process working directory always
/// is); the result is then absolute as well.
pub fn resolve_path(cwd: &Vec<u8>, path: &Vec<u8>) -> (r: Vec<u8>)
    requires
        is_absolute(cwd@),
    ensures
        r@ == resolved(cwd@, path@),
        is_absolute(r@),
{
    if path.len() > 0 && path[0] == SEP {
        return path.clone();
    }
    let mut r = cwd.clone();
    if !(r.len() > 0 && r[r.len() - 1] == SEP) {
        r.push(SEP);
    }
    let mut i: usize = 0;
    while i < path.len()
        invariant
            0 <= i <= path@.len(),
            r@ == resolved(cwd@, path@.take(i as int)),
            is_absolute(cwd@),
            !is_absolute(path@),
            path@.take(i as int).len() == i,
        decreases path@.len() - i,
    {
        let b = path[i];
        r.push(b);
        proof {
            assert(path@.take(i + 1) =~= path@.take(i as int) + seq![path@[i as int]]);
            assert(path@.take(i + 1)[0] == path@[0]);
            assert(r@ == resolved(cwd@, path@.take(i + 1)));
        }
        i += 1;
    }
    proof {
        assert(path@.take(path@.len() as int) =~= path@);
    }
    r
}

/// The index just past the last separator of `p`, or 0 if none.
pub open spec fn after_last_sep(p: Seq<u8>) -> int
    decreases p.len(),
{
    if p.len() == 0 {
        0
    } else if p[p.len() - 1] == SEP {
        p.len() as int
    } else {
        after_last_sep(p.take(p.len() - 1))
    }
}

/// The parent directory of an absolute path `p`: everything up to (and
/// excluding) the last separator, except that the root's parent is the
/// root itself. Defined only for paths that have a parent, that is,
/// absolute paths with something after their last separator.
pub open spec fn parent_of(p: Seq<u8>) -> Seq<u8> {
    if after_last_sep(p) == 1 {
        seq![SEP]
    } else {
        p.take(after_last_sep(p) - 1)
    }
}

/// An absolute path has a parent exactly when a non-empty file name
/// follows its last separator.
pub open spec fn has_parent(p: Seq<u8>) -> bool {
    is_absolute(p) && after_last_sep(p) < p.len()
}

/// Split an absolute path into its parent directory and file name.
///
/// Returns `Err(NotFound)` exactly when the path has no parent (the
/// root, or a path ending in a separator); otherwise the parent is
/// `parent_of` and the file name is what follows the last separator.
pub fn split_parent(p: &Vec<u8>) -> (r: Result<(Vec<u8>, Vec<u8>), ErrorKind>)
    requires
        is_absolute(p@),
    ensures
        match r {
            Ok(pair) => {
                &&& has_parent(p@)
                &&& pair.0@ == parent_of(p@)
                &&& pair.1@ == p@.skip(after_last_sep(p@))
                &&& is_absolute(pair.0@)
                &&& pair.1@.len() > 0
            },
            Err(k) => !has_parent(p@) && k == ErrorKind::NotFound,
        },
{
    // find the index just past the last separator
    let mut cut: usize = p.len();
    while cut > 0 && p[cut - 1] != SEP
        invariant
            0 <= cut <= p@.len(),
            is_absolute(p@),
            forall|j: int| cut <= j < p@.len() ==> p@[j] != SEP,
        decreases cut,
    {
        cut -= 1;
    }
    proof {
        assert(cut > 0) by {
            if cut == 0 {
                assert(p@[0] != SEP);
            }
        }
        lemma_after_last_sep_at(p@, cut as int);
        assert(cut == after_last_sep(p@));
    }
    if cut == p.len() {
        return Err(ErrorKind::NotFound);
    }
    let mut parent: Vec<u8> = Vec::new();
    if cut == 1 {
        parent.push(SEP);
        proof {
            assert(parent@ =~= seq![SEP]);
        }
    } else {
        let mut i: usize = 0;
        while i < cut - 1
            invariant
                2 <= cut <= p@.len(),
                0 <= i <= cut - 1,
                parent@ == p@.take(i as int),
            decreases cut - i,
        {
            let b = p[i];
            parent.push(b);
            proof {
                assert(p@.take(i + 1) =~= p@.take(i as int) + seq![p@[i as int]]);
            }
            i += 1;
        }
    }
    let mut name: Vec<u8> = Vec::new();
    let mut i: usize = cut;
    while i < p.len()
        invariant
            cut <= i <= p@.len(),
            name@ == p@.subrange(cut as int, i as int),
        decreases p@.len() - i,
    {
        let b = p[i];
        name.push(b);
        proof {
            assert(p@.subrange(cut as int, i + 1) =~= p@.subrange(cut as int, i as int)
                + seq![p@[i as int]]);
        }
        i += 1;
    }
    proof {
        assert(name@ =~= p@.skip(after_last_sep(p@)));
        if cut >= 2 {
            assert(parent@ == parent_of(p@));
            assert(is_absolute(parent@)) by {
                assert(p@.take(cut - 1)[0] == p@[0]);
            }
        }
    }
    Ok((parent, name))
}

/// Dropping trailing non-separator bytes does not move the cut.
proof fn lemma_after_last_sep_prefix(p: Seq<u8>, upto: int)
    requires
        0 <= upto <= p.len(),
        forall|j: int| upto <= j < p.len() ==> p[j] != SEP,
    ensures
        after_last_sep(p) == after_last_sep(p.take(upto)),
    decreases p.len() - upto,
{
    if upto == p.len() {
        assert(p.take(upto) =~= p);
    } else {
        lemma_after_last_sep_prefix(p, upto + 1);
        let q = p.take(upto + 1);
        assert(q[q.len() - 1] == p[upto]);
        assert(q[q.len() - 1] != SEP);
        assert(after_last_sep(q) == after_last_sep(q.take(q.len() - 1)));
        assert(q.take(q.len() - 1) =~= p.take(upto));
    }
}

/// If the byte before `at` is a separator and none follows, the cut is
/// exactly `at`.
proof fn lemma_after_last_sep_at(p: Seq<u8>, at: int)
    requires
        0 < at <= p.len(),
        p[at - 1] == SEP,
        forall|j: int| at <= j < p.len() ==> p[j] != SEP,
    ensures
        after_last_sep(p) == at,
    decreases p.len(),
{
    lemma_after_last_sep_prefix(p, at);
    let q = p.take(at);
    assert(q[q.len() - 1] == SEP);
}

/// Whether a byte string contains a NUL byte, which no path handed to
/// the platform may.
pub open spec fn has_nul(p: Seq<u8>) -> bool {
    exists|i: int| 0 <= i < p.len() && p[i] == 0
}

/// Validate a path for use as a C string and append the terminator,
/// as the platform's calling convention needs it.
///
/// Returns the path with a trailing NUL exactly when the path itself
/// contains none, and `Err(InvalidPath)` otherwise.
pub fn cstr(path: &Vec<u8>) -> (r: Result<Vec<u8>, ErrorKind>)
    ensures
        match r {
            Ok(c) => !has_nul(path@) && c@ == path@ + seq![0u8],
            Err(k) => has_nul(path@) && k == ErrorKind::InvalidPath,
        },
{
    let mut i: usize = 0;
    while i < path.len()
        invariant
            0 <= i <= path@.len(),
            forall|j: int| 0 <= j < i ==> path@[j] != 0,
        decreases path@.len() - i,
    {
        if path[i] == 0 {
            return Err(ErrorKind::InvalidPath);
        }
        i += 1;
    }
    let mut c = path.clone();
    c.push(0);
    Ok(c)
}

} // verus!
