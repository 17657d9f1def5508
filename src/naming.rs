//! Fleet names: the stem of an artifact's file name.
use vstd::prelude::*;
use vstd::utf8::{decode_utf8, valid_utf8};
use crate::path::{
    file_name, file_name_of, is_parent, is_skipped, last_dot, name_span, scan_name, stem_end,
    with_extension, with_extension_of, DOT, SLASH,
};

verus! {

/// Why a path gives no fleet name.
#[derive(Debug, Clone, Copy, PartialEq, Eq, Structural)]
pub enum NameError {
    /// The path has no file-name component.
    MissingFileName,
    /// The name is not well-formed UTF-8.
    NonUnicodeName,
}

/// The text that the bytes `b` spell in UTF-8, if they are well-formed.
pub open spec fn utf8_text(b: Seq<u8>) -> Option<Seq<char>> {
    if valid_utf8(b) {
        Some(decode_utf8(b))
    } else {
        None
    }
}

/// Relies on `std::str::from_utf8`: it accepts exactly the well-formed UTF-8 byte
/// strings and reads them as text.
#[verifier::external_body]
fn utf8_to_string(b: &[u8]) -> (r: Option<String>)
    ensures
        match r {
            Some(s) => valid_utf8(b@) && s@ == decode_utf8(b@),
            None => !valid_utf8(b@),
        },
{
    match std::str::from_utf8(b) {
        Ok(s) => Some(s.to_string()),
        Err(_) => None,
    }
}

/// The fleet name in the bytes of `p`: the file name left once the extension is removed.
pub open spec fn fleet_name_of(p: Seq<u8>) -> Option<Seq<u8>> {
    file_name_of(with_extension_of(p, Seq::empty()))
}

/// What `extract_fleet_name` gives for `p`.
pub open spec fn extracted_name(p: Seq<u8>) -> Result<Seq<char>, NameError> {
    match fleet_name_of(p) {
        None => Err(NameError::MissingFileName),
        Some(n) => match utf8_text(n) {
            None => Err(NameError::NonUnicodeName),
            Some(t) => Ok(t),
        },
    }
}

/// The bytes of the fleet name of `fleet_path`.
pub fn fleet_name_bytes(fleet_path: &[u8]) -> (r: Option<Vec<u8>>)
    ensures
        match r {
            Some(v) => fleet_name_of(fleet_path@) == Some(v@),
            None => fleet_name_of(fleet_path@) is None,
        },
{
    let stripped = with_extension(fleet_path, &[]);
    assert(seq![] =~= Seq::<u8>::empty());
    file_name(stripped.as_slice())
}

/// Checks that the fleet name bytes `name` are text.
pub fn name_text(name: &[u8]) -> (r: Result<String, NameError>)
    ensures
        match r {
            Ok(s) => utf8_text(name@) == Some(s@),
            Err(e) => e == NameError::NonUnicodeName && utf8_text(name@) is None,
        },
{
    match utf8_to_string(name) {
        Some(s) => Ok(s),
        None => Err(NameError::NonUnicodeName),
    }
}

/// Takes the path to a fleet artifact and gives the fleet's name: the file name
/// without its extension.
pub fn extract_fleet_name(fleet_path: &[u8]) -> (r: Result<String, NameError>)
    ensures
        match r {
            Ok(s) => extracted_name(fleet_path@) == Ok::<Seq<char>, NameError>(s@),
            Err(e) => extracted_name(fleet_path@) == Err::<Seq<char>, NameError>(e),
        },
{
    match fleet_name_bytes(fleet_path) {
        None => Err(NameError::MissingFileName),
        Some(n) => name_text(n.as_slice()),
    }
}

/// Within a run of bytes without a separator that starts a component, scanning
/// for the file name reaches the run's start.
proof fn lemma_scan_run(p: Seq<u8>, i: int, a: int, e: int)
    requires
        0 <= a <= i <= e <= p.len(),
        forall|k: int| a <= k < e ==> p[k] != SLASH,
    ensures
        scan_name(p, i, e) == scan_name(p, a, e),
    decreases i,
{
    if i > a {
        lemma_scan_run(p, i - 1, a, e);
    }
}

/// A component `p[a..e]` that is not empty, `.` or `..`, and ends the path, is its file name.
proof fn lemma_last_component(p: Seq<u8>, a: int)
    requires
        0 <= a < p.len(),
        a == 0 || p[a - 1] == SLASH,
        forall|k: int| a <= k < p.len() ==> p[k] != SLASH,
        !is_skipped(p, a, p.len() as int),
        !is_parent(p, a, p.len() as int),
    ensures
        name_span(p) == Some((a, p.len() as int)),
{
    lemma_scan_run(p, p.len() as int, a, p.len() as int);
}

/// The last dot before `j` is `d` where no dot follows it.
proof fn lemma_last_dot_at(p: Seq<u8>, s: int, d: int, j: int)
    requires
        s <= d < j <= p.len(),
        0 <= d,
        p[d] == DOT,
        forall|k: int| d < k < j ==> p[k] != DOT,
    ensures
        last_dot(p, s, j) == d,
    decreases j,
{
    if j - 1 > d {
        lemma_last_dot_at(p, s, d, j - 1);
    }
}

/// The fleet name of an artifact at `{dir}{stem}.{ext}` is `stem`, whatever the
/// extension: it is removed unconditionally. `dir` is empty or ends in a separator;
/// the stem holds no separator and is no `.` or `..`; the extension holds neither
/// a separator nor a dot.
pub proof fn lemma_artifact_name_is_stem(dir: Seq<u8>, stem: Seq<u8>, ext: Seq<u8>)
    requires
        dir.len() == 0 || dir[dir.len() - 1] == SLASH,
        stem.len() > 0,
        forall|k: int| 0 <= k < stem.len() ==> stem[k] != SLASH,
        stem != seq![DOT],
        stem != seq![DOT, DOT],
        forall|k: int| 0 <= k < ext.len() ==> ext[k] != SLASH && ext[k] != DOT,
    ensures
        fleet_name_of(dir + stem.push(DOT) + ext) == Some(stem),
{
    let p = dir + stem.push(DOT) + ext;
    let a = dir.len() as int;
    let d = a + stem.len();
    assert(p[d] == DOT);
    assert forall|k: int| a <= k < p.len() implies p[k] != SLASH by {
        if k < d {
            assert(p[k] == stem[k - a]);
        } else if k > d {
            assert(p[k] == ext[k - d - 1]);
        }
    }
    if stem.len() == 1 {
        assert(p[a] != DOT || stem =~= seq![DOT]);
    }
    lemma_last_component(p, a);
    assert forall|k: int| d < k < p.len() implies p[k] != DOT by {
        assert(p[k] == ext[k - d - 1]);
    }
    lemma_last_dot_at(p, a, d, p.len() as int);
    assert(stem_end(p, a, p.len() as int) == d);
    let q = p.subrange(0, d);
    assert(q =~= dir + stem);
    assert(with_extension_of(p, Seq::empty()) == q);
    assert forall|k: int| a <= k < q.len() implies q[k] != SLASH by {
        assert(q[k] == stem[k - a]);
    }
    if stem.len() == 1 {
        assert(q[a] != DOT || stem =~= seq![DOT]);
    }
    if stem.len() == 2 {
        assert(!(q[a] == DOT && q[a + 1] == DOT) || stem =~= seq![DOT, DOT]);
    }
    lemma_last_component(q, a);
    assert(q.subrange(a, q.len() as int) =~= stem);
}

} // verus!
