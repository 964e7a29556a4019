//! Path handling over raw bytes: a path's filename is its suffix after
//! the last `/`, and the head record lives beside it under a reserved
//! name.

use vstd::prelude::*;

use crate::bytes::{
    append_bytes, copy_bytes, last_index_of, lemma_last_index_bounds, rfind_byte, subvec,
};
use crate::errors::Error;

verus! {

/// ASCII `/`, the path separator.
pub const SLASH: u8 = 47;

/// The filename of a path: the suffix after the last `/`, or the whole
/// path if it holds no `/`. Empty exactly when the path has no usable
/// filename (an empty path, or one ending in `/`).
pub open spec fn filename_spec(path: Seq<u8>) -> Seq<u8> {
    path.subrange(last_index_of(path, SLASH) + 1, path.len() as int)
}

/// The prefix of a path up to and including its last `/` (empty if the
/// path holds no `/`).
pub open spec fn dir_prefix_spec(path: Seq<u8>) -> Seq<u8> {
    path.subrange(0, last_index_of(path, SLASH) + 1)
}

/// `path` with its filename replaced by `name`.
pub open spec fn with_file_name_spec(path: Seq<u8>, name: Seq<u8>) -> Seq<u8> {
    dir_prefix_spec(path) + name
}

/// The reserved filename of the head record, as bytes: `fname_seq_head`.
pub open spec fn head_record_name_spec() -> Seq<u8> {
    // the bytes of "fname_seq_head"
    seq![
        102, 110, 97, 109, 101, 95, 115, 101, 113, 95, 104, 101, 97, 100,
    ]
}

/// The reserved filename of the head record.
pub fn head_record_name() -> (r: Vec<u8>)
    ensures
        r@ == head_record_name_spec(),
{
    let mut r: Vec<u8> = Vec::new();
    r.push(102);
    r.push(110);
    r.push(97);
    r.push(109);
    r.push(101);
    r.push(95);
    r.push(115);
    r.push(101);
    r.push(113);
    r.push(95);
    r.push(104);
    r.push(101);
    r.push(97);
    r.push(100);
    proof {
        assert(r@ =~= head_record_name_spec());
    }
    r
}

/// Extract the filename from `path`; fail when the path has none.
pub fn path_to_name(path: &Vec<u8>) -> (r: Result<Vec<u8>, Error>)
    ensures
        filename_spec(path@).len() > 0 ==> (r matches Ok(n) && n@ == filename_spec(path@)),
        filename_spec(path@).len() == 0 ==> (r matches Err(e) && (e matches Error::NoFilename {
            path: p,
        } && p@ == path@)),
{
    proof {
        lemma_last_index_bounds(path@, SLASH);
    }
    let len: usize = path.len();
    let start: usize = match rfind_byte(path, SLASH) {
        Some(i) => i + 1,
        None => 0,
    };
    if start < len {
        Ok(subvec(path, start, len))
    } else {
        Err(Error::NoFilename { path: copy_bytes(path) })
    }
}

/// `path` with its filename replaced by `name`.
pub fn with_file_name(path: &Vec<u8>, name: &Vec<u8>) -> (r: Vec<u8>)
    ensures
        r@ == with_file_name_spec(path@, name@),
{
    proof {
        lemma_last_index_bounds(path@, SLASH);
    }
    let end: usize = match rfind_byte(path, SLASH) {
        Some(i) => i + 1,
        None => 0,
    };
    let mut r = subvec(path, 0, end);
    append_bytes(&mut r, name);
    r
}

/// Locate the head record for `base_path`: same directory, reserved name.
pub fn find_headstate(base_path: &Vec<u8>) -> (r: Vec<u8>)
    ensures
        r@ == with_file_name_spec(base_path@, head_record_name_spec()),
{
    let name = head_record_name();
    with_file_name(base_path, &name)
}

} // verus!
