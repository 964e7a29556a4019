//! Filename splitting and name derivation: the stem/extension split at
//! the last dot, the attach-case derived name, and the self-referential
//! name a new head is renamed to.

use vstd::prelude::*;

use crate::bytes::{
    append_bytes, copy_bytes, last_index_of, lemma_last_index_absent, lemma_last_index_bounds,
    lemma_last_index_witness, rfind_byte, subvec,
};
use crate::errors::Error;
use crate::paths::{filename_spec, path_to_name};

verus! {

/// ASCII `.`, the extension separator.
pub const DOT: u8 = 46;

/// ASCII `_`, the separator between a head's stem and an attached name.
pub const UNDERSCORE: u8 = 95;

/// Split a filename at its last `.` into a stem and an extension; a name
/// without a `.` is all stem and has no extension.
pub open spec fn split_spec(name: Seq<u8>) -> (Seq<u8>, Option<Seq<u8>>) {
    let i = last_index_of(name, DOT);
    if i < 0 {
        (name, None)
    } else {
        (name.subrange(0, i), Some(name.subrange(i + 1, name.len() as int)))
    }
}

/// The views of an optional byte vector.
pub open spec fn opt_bytes_view(o: Option<Vec<u8>>) -> Option<Seq<u8>> {
    match o {
        Some(v) => Some(v@),
        None => None,
    }
}

/// The attach-case derived name: the head's stem, `_`, then the target's
/// full filename (the target's own extension is kept, not re-split).
pub open spec fn derived_name_spec(head_name: Seq<u8>, target_name: Seq<u8>) -> Seq<u8> {
    split_spec(head_name).0 + seq![UNDERSCORE] + target_name
}

/// The self-referential name a new head is renamed to: its stem twice,
/// joined by `_`, with its original extension re-appended if present.
pub open spec fn head_self_name_spec(name: Seq<u8>) -> Seq<u8> {
    match split_spec(name).1 {
        Some(e) => split_spec(name).0 + seq![UNDERSCORE] + split_spec(name).0 + seq![DOT] + e,
        None => split_spec(name).0 + seq![UNDERSCORE] + split_spec(name).0,
    }
}

/// Split a filename into a stem and an optional extension at its last `.`.
pub fn split_name(name: &Vec<u8>) -> (r: (Vec<u8>, Option<Vec<u8>>))
    ensures
        r.0@ == split_spec(name@).0,
        opt_bytes_view(r.1) == split_spec(name@).1,
{
    proof {
        lemma_last_index_bounds(name@, DOT);
    }
    let len: usize = name.len();
    match rfind_byte(name, DOT) {
        Some(i) => (subvec(name, 0, i), Some(subvec(name, i + 1, len))),
        None => (copy_bytes(name), None),
    }
}

/// Compute the derived name for `file`, given the head record's content:
/// the head's stem, `_`, then `file`'s own filename.
pub fn new_name(head_content: &Vec<u8>, file: &Vec<u8>) -> (r: Result<Vec<u8>, Error>)
    ensures
        filename_spec(file@).len() > 0 && filename_spec(head_content@).len() > 0 ==> (r
            matches Ok(n) && n@ == derived_name_spec(
            filename_spec(head_content@),
            filename_spec(file@),
        )),
        filename_spec(file@).len() == 0 ==> (r matches Err(e) && (e matches Error::NoFilename {
            path: p,
        } && p@ == file@)),
        filename_spec(file@).len() > 0 && filename_spec(head_content@).len() == 0 ==> (r
            matches Err(e) && (e matches Error::NoFilename { path: p } && p@ == head_content@)),
{
    let orig_name = match path_to_name(file) {
        Ok(n) => n,
        Err(e) => {
            return Err(e);
        },
    };
    let head_name = match path_to_name(head_content) {
        Ok(n) => n,
        Err(e) => {
            return Err(e);
        },
    };
    let (stem, _ext) = split_name(&head_name);
    let mut out = stem;
    out.push(UNDERSCORE);
    append_bytes(&mut out, &orig_name);
    proof {
        assert(out@ =~= derived_name_spec(filename_spec(head_content@), filename_spec(file@)));
    }
    Ok(out)
}

/// Compute the self-referential name for a file about to become head.
pub fn new_head_name(file: &Vec<u8>) -> (r: Result<Vec<u8>, Error>)
    ensures
        filename_spec(file@).len() > 0 ==> (r matches Ok(n) && n@ == head_self_name_spec(
            filename_spec(file@),
        )),
        filename_spec(file@).len() == 0 ==> (r matches Err(e) && (e matches Error::NoFilename {
            path: p,
        } && p@ == file@)),
{
    let name = match path_to_name(file) {
        Ok(n) => n,
        Err(e) => {
            return Err(e);
        },
    };
    let (stem, maybe_ext) = split_name(&name);
    let mut out = copy_bytes(&stem);
    out.push(UNDERSCORE);
    append_bytes(&mut out, &stem);
    match maybe_ext {
        Some(ext) => {
            out.push(DOT);
            append_bytes(&mut out, &ext);
        },
        None => {},
    }
    proof {
        assert(out@ =~= head_self_name_spec(filename_spec(file@)));
    }
    Ok(out)
}

/// A filename containing no `.` splits into itself, with no extension.
pub proof fn lemma_split_name_no_dot(n: Seq<u8>)
    requires
        forall|i: int| 0 <= i < n.len() ==> n[i] != DOT,
    ensures
        split_spec(n) == (n, None::<Seq<u8>>),
{
    lemma_last_index_absent(n, DOT);
}

/// Splitting `a + "." + b`, where `b` is nonempty and holds no `.` of its
/// own, yields `(a, b)`: the split happens at the rightmost dot, so `a`
/// may itself contain dots.
pub proof fn lemma_split_name_rightmost(a: Seq<u8>, b: Seq<u8>)
    requires
        b.len() > 0,
        forall|i: int| 0 <= i < b.len() ==> b[i] != DOT,
    ensures
        split_spec(a + seq![DOT] + b) == (a, Some(b)),
{
    let n = a + seq![DOT] + b;
    assert(n[a.len() as int] == DOT);
    assert forall|j: int| a.len() < j < n.len() implies n[j] != DOT by {
        assert(n[j] == b[j - a.len() - 1]);
    }
    lemma_last_index_witness(n, DOT, a.len() as int);
    assert(n.subrange(0, a.len() as int) =~= a);
    assert(n.subrange(a.len() as int + 1, n.len() as int) =~= b);
}

/// The derived name is a pure function of the head's filename and the
/// target's filename alone: any two head paths carrying the same filename,
/// and any two target paths carrying the same filename, yield the same
/// derived name.
pub proof fn lemma_derived_name_pure(h1: Seq<u8>, h2: Seq<u8>, t1: Seq<u8>, t2: Seq<u8>)
    requires
        filename_spec(h1) == filename_spec(h2),
        filename_spec(t1) == filename_spec(t2),
    ensures
        derived_name_spec(filename_spec(h1), filename_spec(t1)) == derived_name_spec(
            filename_spec(h2),
            filename_spec(t2),
        ),
{
}

} // verus!
