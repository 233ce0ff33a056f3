//! Paths as byte strings: conversion to C strings, decimal numbers, and the
//! names that the atomic removal renames a directory to.
use vstd::prelude::*;

use crate::error::Error;

verus! {

/// Whether `s` holds a nul byte.
pub open spec fn has_nul(s: Seq<u8>) -> bool {
    exists|i: int| 0 <= i < s.len() && s[i] == 0u8
}

/// The C string that stands for the path `s`: its bytes and a final nul.
pub open spec fn cstr(s: Seq<u8>) -> Seq<u8> {
    s.push(0u8)
}

/// Converts a path to a nul-terminated byte string.
///
/// Fails with `InvalidInput` when the path holds a nul byte, so that no
/// system call ever sees a truncated path.
pub fn to_cstr(path: &[u8]) -> (r: Result<Vec<u8>, Error>)
    ensures
        has_nul(path@) <==> r is Err,
        r is Err ==> r == Err::<Vec<u8>, Error>(Error::InvalidInput),
        r is Ok ==> r->Ok_0@ == cstr(path@),
{
    let mut out: Vec<u8> = Vec::new();
    let mut i: usize = 0;
    while i < path.len()
        invariant
            i <= path@.len(),
            out@ == path@.subrange(0, i as int),
            forall|j: int| 0 <= j < i ==> path@[j] != 0u8,
        decreases path@.len() - i,
    {
        if path[i] == 0u8 {
            return Err(Error::InvalidInput);
        }
        out.push(path[i]);
        i = i + 1;
    }
    out.push(0u8);
    assert(path@.subrange(0, path@.len() as int) =~= path@);
    Ok(out)
}

/// The decimal digits of `n`, most significant first, without leading zeros.
pub open spec fn dec(n: nat) -> Seq<u8>
    decreases n,
{
    if n < 10 {
        seq![(48 + n) as u8]
    } else {
        dec(n / 10).push((48 + n % 10) as u8)
    }
}

/// The decimal form of `n`, with a leading `-` when it is negative.
pub open spec fn dec_signed(n: int) -> Seq<u8> {
    if n < 0 {
        seq![45u8] + dec((-n) as nat)
    } else {
        dec(n as nat)
    }
}

/// Writes `n` in decimal.
pub fn decimal(n: u64) -> (r: Vec<u8>)
    ensures
        r@ == dec(n as nat),
    decreases n,
{
    if n < 10 {
        let d: u8 = 48u8 + n as u8;
        let mut v: Vec<u8> = Vec::new();
        v.push(d);
        assert(v@ =~= seq![d]);
        v
    } else {
        let mut v = decimal(n / 10);
        let d: u8 = 48u8 + (n % 10) as u8;
        v.push(d);
        v
    }
}

/// Writes `n` in decimal, with a leading `-` when it is negative.
pub fn decimal_signed(n: i64) -> (r: Vec<u8>)
    ensures
        r@ == dec_signed(n as int),
{
    if n < 0 {
        let m: u64 = if n == i64::MIN {
            9223372036854775808u64
        } else {
            (-n) as u64
        };
        let digits = decimal(m);
        let mut v: Vec<u8> = Vec::new();
        v.push(45u8);
        let mut i: usize = 0;
        while i < digits.len()
            invariant
                i <= digits@.len(),
                v@ == seq![45u8] + digits@.subrange(0, i as int),
            decreases digits@.len() - i,
        {
            v.push(digits[i]);
            i = i + 1;
            assert(v@ =~= seq![45u8] + digits@.subrange(0, i as int));
        }
        assert(digits@.subrange(0, digits@.len() as int) =~= digits@);
        v
    } else {
        decimal(n as u64)
    }
}

/// Where the final component of `p` starts: just after its last `/`, or at
/// the start when it has none.
pub open spec fn name_start(p: Seq<u8>) -> nat
    decreases p.len(),
{
    if p.len() == 0 {
        0
    } else if p.last() == 47u8 {
        p.len()
    } else {
        name_start(p.drop_last())
    }
}

/// The final component of `p`: what follows its last `/`.
pub open spec fn final_name(p: Seq<u8>) -> Seq<u8> {
    p.subrange(name_start(p) as int, p.len() as int)
}

/// The index of the last `.` in `s`, or -1 when it has none.
pub open spec fn last_dot(s: Seq<u8>) -> int
    decreases s.len(),
{
    if s.len() == 0 {
        -1
    } else if s.last() == 46u8 {
        s.len() - 1
    } else {
        last_dot(s.drop_last())
    }
}

/// The length of a name's stem: the part before its extension. A leading
/// dot starts no extension.
pub open spec fn stem_len(name: Seq<u8>) -> int {
    if last_dot(name) > 0 {
        last_dot(name)
    } else {
        name.len() as int
    }
}

/// A final component that names an entry: not empty, `.` or `..`.
pub open spec fn usable_name(name: Seq<u8>) -> bool {
    name.len() > 0 && name != seq![46u8] && name != seq![46u8, 46u8]
}

/// `p` with the extension of its final component replaced by `ext`.
pub open spec fn with_extension(p: Seq<u8>, ext: Seq<u8>) -> Seq<u8> {
    p.subrange(0, name_start(p) + stem_len(final_name(p))) + seq![46u8] + ext
}

/// `name` placed inside the directory path `dir`; an empty `dir` leaves it
/// as it is.
pub open spec fn joined(dir: Seq<u8>, name: Seq<u8>) -> Seq<u8> {
    if dir.len() == 0 {
        name
    } else if dir.last() == 47u8 {
        dir + name
    } else {
        dir + seq![47u8] + name
    }
}

/// `p` without its trailing slashes: `a/b/` names the same entry as `a/b`.
pub open spec fn trim_slashes(p: Seq<u8>) -> Seq<u8>
    decreases p.len(),
{
    if p.len() > 0 && p.last() == 47u8 {
        trim_slashes(p.drop_last())
    } else {
        p
    }
}

/// The entry that the atomic removal of `path` renames: its final
/// component, trailing slashes aside.
pub open spec fn entry_name(path: Seq<u8>) -> Seq<u8> {
    final_name(trim_slashes(path))
}

/// The name that the atomic removal tries for `counter`: the path itself
/// when `staging` is empty, else the path's final component inside
/// `staging`, with its extension replaced by the counter in decimal.
/// Trailing slashes of the path are left aside.
pub open spec fn candidate(path: Seq<u8>, staging: Seq<u8>, counter: nat) -> Seq<u8> {
    let base = if staging.len() == 0 {
        trim_slashes(path)
    } else {
        joined(staging, entry_name(path))
    };
    with_extension(base, dec(counter))
}

/// Whether `p` is `root` or lies below it.
pub open spec fn is_under(p: Seq<u8>, root: Seq<u8>) -> bool {
    p == root || (p.len() > root.len() && p.subrange(0, root.len() as int) == root
        && p[root.len() as int] == 47u8)
}

proof fn lemma_name_start_bound(p: Seq<u8>)
    ensures
        name_start(p) <= p.len(),
    decreases p.len(),
{
    if p.len() > 0 && p.last() != 47u8 {
        lemma_name_start_bound(p.drop_last());
    }
}

proof fn lemma_last_dot_bound(s: Seq<u8>)
    ensures
        -1 <= last_dot(s) < s.len(),
        last_dot(s) >= 0 ==> s[last_dot(s)] == 46u8,
    decreases s.len(),
{
    if s.len() > 0 && s.last() != 46u8 {
        lemma_last_dot_bound(s.drop_last());
    }
}

/// Copies `p[from..to]` into a new vector.
pub(crate) fn copy_range(p: &[u8], from: usize, to: usize) -> (r: Vec<u8>)
    requires
        from <= to <= p@.len(),
    ensures
        r@ == p@.subrange(from as int, to as int),
{
    let mut out: Vec<u8> = Vec::new();
    let mut i: usize = from;
    while i < to
        invariant
            from <= i <= to,
            to <= p@.len(),
            out@ == p@.subrange(from as int, i as int),
        decreases to - i,
    {
        out.push(p[i]);
        i = i + 1;
        assert(out@ =~= p@.subrange(from as int, i as int));
    }
    out
}

/// Appends the bytes of `s` to `out`.
pub(crate) fn append(out: &mut Vec<u8>, s: &[u8])
    ensures
        final(out)@ == old(out)@ + s@,
{
    let mut i: usize = 0;
    while i < s.len()
        invariant
            i <= s@.len(),
            out@ == old(out)@ + s@.subrange(0, i as int),
        decreases s@.len() - i,
    {
        out.push(s[i]);
        i = i + 1;
        assert(out@ =~= old(out)@ + s@.subrange(0, i as int));
    }
    assert(s@.subrange(0, s@.len() as int) =~= s@);
}

/// Where the final component of `p` starts.
pub fn name_start_of(p: &[u8]) -> (r: usize)
    ensures
        r == name_start(p@),
        r <= p@.len(),
{
    let mut i: usize = p.len();
    assert(p@.subrange(0, i as int) =~= p@);
    while i > 0 && p[i - 1] != 47u8
        invariant
            i <= p@.len(),
            name_start(p@) == name_start(p@.subrange(0, i as int)),
        decreases i,
    {
        assert(p@.subrange(0, i as int).drop_last() =~= p@.subrange(0, i - 1));
        i = i - 1;
    }
    i
}

/// The length of `p` without its trailing slashes.
pub fn trimmed_len(p: &[u8]) -> (r: usize)
    ensures
        r <= p@.len(),
        p@.subrange(0, r as int) == trim_slashes(p@),
{
    let mut i: usize = p.len();
    assert(p@.subrange(0, i as int) =~= p@);
    while i > 0 && p[i - 1] == 47u8
        invariant
            i <= p@.len(),
            trim_slashes(p@) == trim_slashes(p@.subrange(0, i as int)),
        decreases i,
    {
        assert(p@.subrange(0, i as int).drop_last() =~= p@.subrange(0, i - 1));
        i = i - 1;
    }
    i
}

/// The final component of `p`.
pub fn final_name_of(p: &[u8]) -> (r: Vec<u8>)
    ensures
        r@ == final_name(p@),
{
    let start = name_start_of(p);
    copy_range(p, start, p.len())
}

/// The index of the last `.` in `s`, if it has one.
pub fn last_dot_of(s: &[u8]) -> (r: Option<usize>)
    ensures
        match r {
            Some(i) => last_dot(s@) == i,
            None => last_dot(s@) == -1,
        },
{
    let mut i: usize = s.len();
    assert(s@.subrange(0, i as int) =~= s@);
    while i > 0
        invariant
            i <= s@.len(),
            last_dot(s@) == last_dot(s@.subrange(0, i as int)),
        decreases i,
    {
        if s[i - 1] == 46u8 {
            return Some(i - 1);
        }
        assert(s@.subrange(0, i as int).drop_last() =~= s@.subrange(0, i - 1));
        i = i - 1;
    }
    None
}

/// Replaces the extension of the final component of `p` by `ext`.
pub fn set_extension(p: &[u8], ext: &[u8]) -> (r: Vec<u8>)
    ensures
        r@ == with_extension(p@, ext@),
{
    let start = name_start_of(p);
    let name = copy_range(p, start, p.len());
    proof {
        lemma_last_dot_bound(name@);
    }
    let stem: usize = match last_dot_of(name.as_slice()) {
        Some(d) if d > 0 => d,
        _ => name.len(),
    };
    let mut out = copy_range(p, 0, start + stem);
    out.push(46u8);
    append(&mut out, ext);
    out
}

/// Places `name` inside the directory path `dir`.
pub fn join(dir: &[u8], name: &[u8]) -> (r: Vec<u8>)
    ensures
        r@ == joined(dir@, name@),
{
    let mut out = copy_range(dir, 0, dir.len());
    assert(dir@.subrange(0, dir@.len() as int) =~= dir@);
    if dir.len() > 0 && dir[dir.len() - 1] != 47u8 {
        out.push(47u8);
    }
    append(&mut out, name);
    out
}

/// The name that the atomic removal tries for `counter`.
///
/// Fails with `InvalidInput` when the path names no entry: its final
/// component, trailing slashes aside, is empty, `.` or `..`.
pub fn removal_candidate(path: &[u8], staging: &[u8], counter: u16) -> (r: Result<Vec<u8>, Error>)
    ensures
        usable_name(entry_name(path@)) <==> r is Ok,
        r is Err ==> r == Err::<Vec<u8>, Error>(Error::InvalidInput),
        r is Ok ==> r->Ok_0@ == candidate(path@, staging@, counter as nat),
{
    let t = copy_range(path, 0, trimmed_len(path));
    let name = final_name_of(t.as_slice());
    let n = name.len();
    if n == 0 || (n == 1 && name[0] == 46u8) || (n == 2 && name[0] == 46u8 && name[1] == 46u8) {
        proof {
            if n == 1 {
                assert(name@ =~= seq![46u8]);
            }
            if n == 2 {
                assert(name@ =~= seq![46u8, 46u8]);
            }
        }
        return Err(Error::InvalidInput);
    }
    let digits = decimal(counter as u64);
    if staging.len() == 0 {
        Ok(set_extension(t.as_slice(), digits.as_slice()))
    } else {
        let base = join(staging, name.as_slice());
        Ok(set_extension(base.as_slice(), digits.as_slice()))
    }
}

/// A candidate name made in place from a path whose entry name has no
/// extension is that path, trailing slashes aside, with `.` and the
/// counter added. It is therefore neither that entry nor anything below
/// it, so the rename takes the entry's name away in one step.
pub proof fn lemma_candidate_in_place(path: Seq<u8>, counter: nat)
    requires
        last_dot(entry_name(path)) <= 0,
    ensures
        candidate(path, Seq::empty(), counter) == trim_slashes(path) + seq![46u8] + dec(counter),
        !is_under(candidate(path, Seq::empty(), counter), trim_slashes(path)),
{
    let t = trim_slashes(path);
    lemma_name_start_bound(t);
    let c = candidate(path, Seq::empty(), counter);
    assert(t.subrange(0, t.len() as int) =~= t);
    assert(c =~= t + seq![46u8] + dec(counter));
    assert(c.len() > t.len());
    assert(c[t.len() as int] == 46u8);
}

} // verus!
