//! Paths as byte strings, `/`-separated, with the component rules of a Unix path.
use vstd::prelude::*;

verus! {

pub const SLASH: u8 = 47;

pub const DOT: u8 = 46;

/// Scans leftwards from `i` for the last named component that ends at `e`.
/// `p[i..e]` is the part of the current component seen so far.
/// Empty and `.` components are skipped; a final `..` or a lone leading `.` has no name.
pub open spec fn scan_name(p: Seq<u8>, i: int, e: int) -> Option<(int, int)>
    decreases i,
{
    if i <= 0 || i > p.len() || e > p.len() || i > e {
        if i == 0 && 0 <= e <= p.len() && !is_skipped(p, 0, e) && !is_parent(p, 0, e) {
            Some((0, e))
        } else {
            None
        }
    } else if p[i - 1] != SLASH {
        scan_name(p, i - 1, e)
    } else if is_skipped(p, i, e) {
        scan_name(p, i - 1, i - 1)
    } else if is_parent(p, i, e) {
        None
    } else {
        Some((i, e))
    }
}

/// `p[i..e]` is empty or `.`.
pub open spec fn is_skipped(p: Seq<u8>, i: int, e: int) -> bool {
    i == e || (e == i + 1 && p[i] == DOT)
}

/// `p[i..e]` is `..`.
pub open spec fn is_parent(p: Seq<u8>, i: int, e: int) -> bool {
    e - i == 2 && p[i] == DOT && p[i + 1] == DOT
}

/// Where the file name of `p` stands in it, if `p` has one.
pub open spec fn name_span(p: Seq<u8>) -> Option<(int, int)> {
    scan_name(p, p.len() as int, p.len() as int)
}

/// The file name of `p`: its last component, unless that is `..` or there is none.
pub open spec fn file_name_of(p: Seq<u8>) -> Option<Seq<u8>> {
    match name_span(p) {
        Some((s, e)) => Some(p.subrange(s, e)),
        None => None,
    }
}

/// The position of the last `.` in `p[s..j]`, or `s - 1` where there is none.
pub open spec fn last_dot(p: Seq<u8>, s: int, j: int) -> int
    decreases j - s,
{
    if j <= s {
        s - 1
    } else if p[j - 1] == DOT {
        j - 1
    } else {
        last_dot(p, s, j - 1)
    }
}

/// Where the stem of the name `p[s..e]` ends: at its last dot, unless that dot
/// is the name's first byte or there is none.
pub open spec fn stem_end(p: Seq<u8>, s: int, e: int) -> int {
    if last_dot(p, s, e) > s {
        last_dot(p, s, e)
    } else {
        e
    }
}

/// The extension of `p`: what follows the last dot of its file name, where that
/// dot is not the name's first byte.
pub open spec fn extension_of(p: Seq<u8>) -> Option<Seq<u8>> {
    match name_span(p) {
        Some((s, e)) => if last_dot(p, s, e) > s {
            Some(p.subrange(last_dot(p, s, e) + 1, e))
        } else {
            None
        },
        None => None,
    }
}

/// `p` cut after the stem of its file name, with `.ext` added unless `ext` is empty.
/// A path without a file name is unchanged.
pub open spec fn with_extension_of(p: Seq<u8>, ext: Seq<u8>) -> Seq<u8> {
    match name_span(p) {
        Some((s, e)) => {
            let t = p.subrange(0, stem_end(p, s, e));
            if ext.len() == 0 {
                t
            } else {
                t.push(DOT) + ext
            }
        },
        None => p,
    }
}

/// `rel` appended to `base`: an absolute `rel` replaces `base`, and a separator is
/// put between the two where `base` is not empty and does not end in one.
pub open spec fn join_of(base: Seq<u8>, rel: Seq<u8>) -> Seq<u8> {
    if rel.len() > 0 && rel[0] == SLASH {
        rel
    } else if base.len() > 0 && base[base.len() - 1] != SLASH {
        base.push(SLASH) + rel
    } else {
        base + rel
    }
}

/// Where the file name of `p` stands in it.
pub fn name_span_of(p: &[u8]) -> (r: Option<(usize, usize)>)
    ensures
        match r {
            Some((s, e)) => name_span(p@) == Some((s as int, e as int)) && s < e <= p@.len(),
            None => name_span(p@) is None,
        },
{
    let n = p.len();
    let mut i: usize = n;
    let mut e: usize = n;
    while i > 0
        invariant
            n == p@.len(),
            i <= e <= n,
            scan_name(p@, i as int, e as int) == name_span(p@),
        decreases i,
    {
        if p[i - 1] != SLASH {
            i = i - 1;
        } else if i == e || (e == i + 1 && p[i] == DOT) {
            i = i - 1;
            e = i;
        } else if e - i == 2 && p[i] == DOT && p[i + 1] == DOT {
            return None;
        } else {
            return Some((i, e));
        }
    }
    if i == e || (e == i + 1 && p[i] == DOT) || (e - i == 2 && p[i] == DOT && p[i + 1] == DOT) {
        None
    } else {
        Some((i, e))
    }
}

/// `p[s..e]` as a vector.
pub fn copy_range(p: &[u8], s: usize, e: usize) -> (r: Vec<u8>)
    requires
        s <= e <= p@.len(),
    ensures
        r@ == p@.subrange(s as int, e as int),
{
    let mut r: Vec<u8> = Vec::new();
    let mut k: usize = s;
    while k < e
        invariant
            s <= k <= e <= p@.len(),
            r@ == p@.subrange(s as int, k as int),
        decreases e - k,
    {
        r.push(p[k]);
        k = k + 1;
        assert(r@ =~= p@.subrange(s as int, k as int));
    }
    r
}

/// Appends all of `q` to `r`.
pub fn append_bytes(r: &mut Vec<u8>, q: &[u8])
    ensures
        final(r)@ == old(r)@ + q@,
{
    let mut k: usize = 0;
    while k < q.len()
        invariant
            k <= q@.len(),
            r@ == old(r)@ + q@.subrange(0, k as int),
        decreases q@.len() - k,
    {
        r.push(q[k]);
        k = k + 1;
        assert(r@ =~= old(r)@ + q@.subrange(0, k as int));
    }
    assert(q@.subrange(0, q@.len() as int) =~= q@);
}

/// The file name of `p`.
pub fn file_name(p: &[u8]) -> (r: Option<Vec<u8>>)
    ensures
        match r {
            Some(v) => file_name_of(p@) == Some(v@),
            None => file_name_of(p@) is None,
        },
{
    match name_span_of(p) {
        Some((s, e)) => Some(copy_range(p, s, e)),
        None => None,
    }
}

/// The position of the last dot in `p[s..e]`, if there is one.
fn find_last_dot(p: &[u8], s: usize, e: usize) -> (r: Option<usize>)
    requires
        s <= e <= p@.len(),
    ensures
        match r {
            Some(d) => last_dot(p@, s as int, e as int) == d as int && s <= d < e,
            None => last_dot(p@, s as int, e as int) == s - 1,
        },
{
    let mut j: usize = e;
    while j > s
        invariant
            s <= j <= e <= p@.len(),
            last_dot(p@, s as int, j as int) == last_dot(p@, s as int, e as int),
        decreases j,
    {
        if p[j - 1] == DOT {
            return Some(j - 1);
        }
        j = j - 1;
    }
    None
}

/// Where the stem of the name `p[s..e]` ends.
pub fn stem_end_of(p: &[u8], s: usize, e: usize) -> (r: usize)
    requires
        s <= e <= p@.len(),
    ensures
        r as int == stem_end(p@, s as int, e as int),
        s <= r <= e,
{
    match find_last_dot(p, s, e) {
        Some(d) => if d > s {
            d
        } else {
            e
        },
        None => e,
    }
}

/// The extension of the file name of `p`.
pub fn extension(p: &[u8]) -> (r: Option<Vec<u8>>)
    ensures
        match r {
            Some(v) => extension_of(p@) == Some(v@),
            None => extension_of(p@) is None,
        },
{
    match name_span_of(p) {
        Some((s, e)) => match find_last_dot(p, s, e) {
            Some(d) => if d > s {
                Some(copy_range(p, d + 1, e))
            } else {
                None
            },
            None => None,
        },
        None => None,
    }
}

/// `p` with the extension of its file name replaced by `ext`, or removed where `ext` is empty.
pub fn with_extension(p: &[u8], ext: &[u8]) -> (r: Vec<u8>)
    ensures
        r@ == with_extension_of(p@, ext@),
{
    match name_span_of(p) {
        Some((s, e)) => {
            let t = stem_end_of(p, s, e);
            let mut r = copy_range(p, 0, t);
            if ext.len() > 0 {
                r.push(DOT);
                append_bytes(&mut r, ext);
            }
            r
        },
        None => copy_range(p, 0, p.len()),
    }
}

/// `rel` joined onto `base`.
pub fn join(base: &[u8], rel: &[u8]) -> (r: Vec<u8>)
    ensures
        r@ == join_of(base@, rel@),
{
    if rel.len() > 0 && rel[0] == SLASH {
        return copy_range(rel, 0, rel.len());
    }
    let mut r = copy_range(base, 0, base.len());
    if base.len() > 0 && base[base.len() - 1] != SLASH {
        r.push(SLASH);
    }
    append_bytes(&mut r, rel);
    r
}

} // verus!
