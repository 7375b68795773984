//! Candidate names for sibling temporary files.
//!
//! When content must acquire a name before it can be renamed onto an
//! occupied destination, a same-directory sibling path is built from a
//! random 64-bit value: a dot, the value in lowercase hexadecimal, and
//! a `.tmp` suffix. The rendering is verified here; the random draw
//! itself is a trusted call into the process-wide generator.

use vstd::prelude::*;
use crate::bytepath::SEP;

verus! {

/// The lowercase hexadecimal digit for a value below 16.
pub open spec fn hex_digit(d: u8) -> u8 {
    if d < 10 {
        (48 + d) as u8  // '0'..'9'
    } else {
        (87 + d) as u8  // 'a'..'f'
    }
}

/// The lowercase hexadecimal rendering of `n`, most significant digit
/// first, with no leading zeros (`0` renders as `"0"`).
pub open spec fn hex_rep(n: nat) -> Seq<u8>
    decreases n,
{
    if n < 16 {
        seq![hex_digit(n as u8)]
    } else {
        hex_rep(n / 16) + seq![hex_digit((n % 16) as u8)]
    }
}

fn hex_digit_exec(d: u8) -> (r: u8)
    requires
        d < 16,
    ensures
        r == hex_digit(d),
{
    if d < 10 {
        48 + d
    } else {
        87 + d
    }
}

/// Append the hexadecimal rendering of `n` to `out`.
pub fn push_hex(n: u64, out: &mut Vec<u8>)
    ensures
        final(out)@ == old(out)@ + hex_rep(n as nat),
    decreases n,
{
    if n >= 16 {
        push_hex(n / 16, out);
    }
    let d = hex_digit_exec((n % 16) as u8);
    out.push(d);
    proof {
        if n >= 16 {
            assert(out@ =~= old(out)@ + hex_rep(n as nat));
        } else {
            assert(out@ =~= old(out)@ + hex_rep(n as nat));
        }
    }
}

/// The file name of a sibling candidate built from the random value
/// `r`: `"." + hex + ".tmp"`.
pub open spec fn sibling_file_name(r: u64) -> Seq<u8> {
    seq![46u8] + hex_rep(r as nat) + seq![46u8, 116u8, 109u8, 112u8]  // "." .. ".tmp"
}

/// The full path of a sibling candidate inside the directory `parent`:
/// the directory, a separator unless it already ends in one, and the
/// candidate file name.
pub open spec fn candidate_path(parent: Seq<u8>, r: u64) -> Seq<u8> {
    if parent.len() > 0 && parent[parent.len() - 1] == SEP {
        parent + sibling_file_name(r)
    } else {
        parent + seq![SEP] + sibling_file_name(r)
    }
}

/// Whether `p` is a possible sibling candidate path inside `parent`.
pub open spec fn is_candidate(parent: Seq<u8>, p: Seq<u8>) -> bool {
    exists|r: u64| p == candidate_path(parent, r)
}

/// Build the sibling candidate path for the directory `parent` and the
/// random value `r`.
pub fn make_candidate(parent: &Vec<u8>, r: u64) -> (p: Vec<u8>)
    ensures
        p@ == candidate_path(parent@, r),
        is_candidate(parent@, p@),
{
    let mut p = parent.clone();
    if !(p.len() > 0 && p[p.len() - 1] == SEP) {
        p.push(SEP);
    }
    p.push(46);
    push_hex(r, &mut p);
    p.push(46);
    p.push(116);
    p.push(109);
    p.push(112);
    proof {
        assert(p@ =~= candidate_path(parent@, r));
    }
    p
}

/// Relies on `rand::rng` and `rand::Rng::next_u64`: draws a fresh
/// 64-bit value from the process-wide generator. Nothing is promised
/// of the value.
#[verifier::external_body]
pub fn random_u64() -> u64 {
    rand::Rng::next_u64(&mut rand::rng())
}

/// The decimal rendering of `n`, most significant digit first.
pub open spec fn dec_rep(n: nat) -> Seq<u8>
    decreases n,
{
    if n < 10 {
        seq![(48 + n) as u8]
    } else {
        dec_rep(n / 10) + seq![(48 + n % 10) as u8]
    }
}

fn push_dec(n: u64, out: &mut Vec<u8>)
    ensures
        final(out)@ == old(out)@ + dec_rep(n as nat),
    decreases n,
{
    if n >= 10 {
        push_dec(n / 10, out);
    }
    out.push(48 + (n % 10) as u8);
    proof {
        assert(out@ =~= old(out)@ + dec_rep(n as nat));
    }
}

/// The self-referencing path under which an open descriptor appears in
/// the proc filesystem: `"/proc/self/fd/" + fd`.
pub open spec fn proc_fd_path(fd: nat) -> Seq<u8> {
    seq![47u8, 112u8, 114u8, 111u8, 99u8, 47u8, 115u8, 101u8, 108u8, 102u8, 47u8, 102u8,
        100u8, 47u8] + dec_rep(fd)
}

/// Build the proc-filesystem self-reference path for the descriptor
/// `fd`, through which an unnamed handle can be linked back into the
/// namespace.
pub fn make_proc_fd_path(fd: u64) -> (p: Vec<u8>)
    ensures
        p@ == proc_fd_path(fd as nat),
{
    let mut p: Vec<u8> = Vec::new();
    p.push(47);
    p.push(112);
    p.push(114);
    p.push(111);
    p.push(99);
    p.push(47);
    p.push(115);
    p.push(101);
    p.push(108);
    p.push(102);
    p.push(47);
    p.push(102);
    p.push(100);
    p.push(47);
    push_dec(fd, &mut p);
    proof {
        assert(p@ =~= proc_fd_path(fd as nat));
    }
    p
}

} // verus!
