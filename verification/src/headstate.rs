//! The head record, modelled as a value: it is either absent or holds the
//! path of the current group head. Writing overwrites the whole content,
//! unconditionally; reading returns the stored path, if any. The caller
//! keeps the real record as a file on disk and mirrors these operations
//! onto it.

use vstd::prelude::*;

use crate::bytes::copy_bytes;

verus! {

/// The head record: absent until the first set-head action, afterwards
/// holding exactly one path.
pub struct HeadRecord {
    content: Option<Vec<u8>>,
}

impl View for HeadRecord {
    type V = Option<Seq<u8>>;

    closed spec fn view(&self) -> Option<Seq<u8>> {
        match self.content {
            Some(v) => Some(v@),
            None => None,
        }
    }
}

impl HeadRecord {
    /// What overwriting a record with `path` leaves as its content,
    /// whatever it held before.
    pub open spec fn write_spec(state: Option<Seq<u8>>, path: Seq<u8>) -> Option<Seq<u8>> {
        Some(path)
    }

    /// A record that does not exist yet.
    pub fn new() -> (r: HeadRecord)
        ensures
            r@ is None,
    {
        HeadRecord { content: None }
    }

    /// Overwrite the record's entire content with `path`; there is no
    /// merge with, or comparison against, the prior content.
    pub fn write(&mut self, path: &Vec<u8>)
        ensures
            final(self)@ == Self::write_spec(old(self)@, path@),
    {
        self.content = Some(copy_bytes(path));
    }

    /// The path the record holds, if it exists.
    pub fn read(&self) -> (r: Option<Vec<u8>>)
        ensures
            r matches Some(p) ==> self@ == Some(p@),
            r is None <==> self@ is None,
    {
        match &self.content {
            Some(v) => Some(copy_bytes(v)),
            None => None,
        }
    }
}

/// Writing a path to the head record is idempotent: a second write of the
/// same path changes nothing, and a read after either write returns that
/// path.
pub proof fn lemma_write_idempotent(state: Option<Seq<u8>>, path: Seq<u8>)
    ensures
        HeadRecord::write_spec(HeadRecord::write_spec(state, path), path)
            == HeadRecord::write_spec(state, path),
        HeadRecord::write_spec(state, path) == Some(path),
{
}

} // verus!
