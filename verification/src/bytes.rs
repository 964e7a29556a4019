//! Small byte-sequence utilities: finding the last occurrence of a byte,
//! and copying or concatenating byte vectors.

use vstd::prelude::*;

verus! {

/// Index of the last occurrence of `b` in `s`, or -1 if `b` does not occur.
pub open spec fn last_index_of(s: Seq<u8>, b: u8) -> int
    decreases s.len(),
{
    if s.len() == 0 {
        -1
    } else if s[s.len() - 1] == b {
        s.len() - 1
    } else {
        last_index_of(s.drop_last(), b)
    }
}

/// The last-occurrence index is always a valid index, or -1.
pub proof fn lemma_last_index_bounds(s: Seq<u8>, b: u8)
    ensures
        -1 <= last_index_of(s, b) < s.len(),
    decreases s.len(),
{
    if s.len() > 0 && s[s.len() - 1] != b {
        lemma_last_index_bounds(s.drop_last(), b);
    }
}

/// If `b` occurs nowhere in `s`, the last-occurrence index is -1.
pub proof fn lemma_last_index_absent(s: Seq<u8>, b: u8)
    requires
        forall|j: int| 0 <= j < s.len() ==> s[j] != b,
    ensures
        last_index_of(s, b) == -1,
    decreases s.len(),
{
    if s.len() > 0 {
        lemma_last_index_absent(s.drop_last(), b);
    }
}

/// If `s[i] == b` and no later position holds `b`, then `i` is the
/// last-occurrence index.
pub proof fn lemma_last_index_witness(s: Seq<u8>, b: u8, i: int)
    requires
        0 <= i < s.len(),
        s[i] == b,
        forall|j: int| i < j < s.len() ==> s[j] != b,
    ensures
        last_index_of(s, b) == i,
    decreases s.len(),
{
    if i < s.len() - 1 {
        assert forall|j: int| i < j < s.drop_last().len() implies s.drop_last()[j] != b by {
            assert(s.drop_last()[j] == s[j]);
        }
        lemma_last_index_witness(s.drop_last(), b, i);
    }
}

/// Find the index of the last occurrence of `b` in `s`.
pub fn rfind_byte(s: &Vec<u8>, b: u8) -> (r: Option<usize>)
    ensures
        s@.len() <= usize::MAX,
        match r {
            Some(i) => last_index_of(s@, b) == i as int && i < s@.len(),
            None => last_index_of(s@, b) == -1,
        },
{
    let mut i: usize = s.len();
    while i > 0
        invariant
            i <= s@.len() <= usize::MAX,
            forall|j: int| i <= j < s@.len() ==> s@[j] != b,
        decreases i,
    {
        i = i - 1;
        if s[i] == b {
            proof {
                lemma_last_index_witness(s@, b, i as int);
            }
            return Some(i);
        }
    }
    proof {
        lemma_last_index_absent(s@, b);
    }
    None
}

/// Copy `s[start..end]` into a fresh vector.
pub fn subvec(s: &Vec<u8>, start: usize, end: usize) -> (r: Vec<u8>)
    requires
        start <= end <= s@.len(),
    ensures
        r@ == s@.subrange(start as int, end as int),
{
    let mut r: Vec<u8> = Vec::new();
    let mut i: usize = start;
    while i < end
        invariant
            start <= i <= end <= s@.len(),
            r@ == s@.subrange(start as int, i as int),
        decreases end - i,
    {
        let x: u8 = s[i];
        r.push(x);
        proof {
            assert(r@ =~= s@.subrange(start as int, (i + 1) as int));
        }
        i = i + 1;
    }
    r
}

/// Copy a whole byte vector.
pub fn copy_bytes(s: &Vec<u8>) -> (r: Vec<u8>)
    ensures
        r@ == s@,
{
    let r = subvec(s, 0, s.len());
    proof {
        assert(s@.subrange(0, s@.len() as int) =~= s@);
    }
    r
}

/// Append all of `src` to `dst`.
pub fn append_bytes(dst: &mut Vec<u8>, src: &Vec<u8>)
    ensures
        final(dst)@ == old(dst)@ + src@,
{
    let mut i: usize = 0;
    while i < src.len()
        invariant
            i <= src@.len(),
            dst@ == old(dst)@ + src@.subrange(0, i as int),
        decreases src@.len() - i,
    {
        let x: u8 = src[i];
        dst.push(x);
        proof {
            assert(dst@ =~= old(dst)@ + src@.subrange(0, (i + 1) as int));
        }
        i = i + 1;
    }
    proof {
        assert(src@.subrange(0, src@.len() as int) =~= src@);
    }
}

} // verus!
