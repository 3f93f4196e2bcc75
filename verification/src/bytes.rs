//! Small verified helpers over byte vectors: equality, copies, sub-ranges and
//! byte search. Account identifiers and credential public keys are carried as
//! byte vectors throughout the library, so these are the primitives every
//! component shares.

use vstd::prelude::*;

verus! {

/// Byte-wise equality of two byte vectors.
pub fn bytes_eq(a: &Vec<u8>, b: &Vec<u8>) -> (r: bool)
    ensures
        r == (a@ == b@),
{
    if a.len() != b.len() {
        return false;
    }
    let mut i: usize = 0;
    while i < a.len()
        invariant
            i <= a.len(),
            a.len() == b.len(),
            forall|j: int| 0 <= j < i ==> a@[j] == b@[j],
        decreases a.len() - i,
    {
        if a[i] != b[i] {
            return false;
        }
        i += 1;
    }
    proof {
        assert(a@ =~= b@);
    }
    true
}

/// An owned copy of a byte vector.
pub fn clone_bytes(v: &Vec<u8>) -> (r: Vec<u8>)
    ensures
        r@ == v@,
{
    let mut r: Vec<u8> = Vec::new();
    let mut i: usize = 0;
    while i < v.len()
        invariant
            i <= v.len(),
            r@ == v@.subrange(0, i as int),
        decreases v.len() - i,
    {
        r.push(v[i]);
        proof {
            assert(v@.subrange(0, i + 1 as int) =~= v@.subrange(0, i as int).push(v@[i as int]));
        }
        i += 1;
    }
    proof {
        assert(v@.subrange(0, v@.len() as int) =~= v@);
    }
    r
}

/// The bytes of `v` from `start` (inclusive) to `end` (exclusive).
pub fn sub_vec(v: &Vec<u8>, start: usize, end: usize) -> (r: Vec<u8>)
    requires
        start <= end <= v.len(),
    ensures
        r@ == v@.subrange(start as int, end as int),
{
    let mut r: Vec<u8> = Vec::new();
    let mut i: usize = start;
    while i < end
        invariant
            start <= i <= end <= v.len(),
            r@ == v@.subrange(start as int, i as int),
        decreases end - i,
    {
        r.push(v[i]);
        proof {
            assert(v@.subrange(start as int, i + 1 as int)
                =~= v@.subrange(start as int, i as int).push(v@[i as int]));
        }
        i += 1;
    }
    r
}

/// The position of the first occurrence of `b` in `s`, if any.
pub open spec fn find_byte(s: Seq<u8>, b: u8) -> Option<int>
    decreases s.len(),
{
    if s.len() == 0 {
        None
    } else if s[0] == b {
        Some(0)
    } else {
        match find_byte(s.skip(1), b) {
            None => None,
            Some(i) => Some(i + 1),
        }
    }
}

/// `find_byte` returns the least index holding `b`, or `None` when `b` does
/// not occur.
proof fn lemma_find_byte(s: Seq<u8>, b: u8)
    ensures
        match find_byte(s, b) {
            Some(i) => 0 <= i < s.len() && s[i] == b && forall|j: int| 0 <= j < i ==> s[j] != b,
            None => forall|j: int| 0 <= j < s.len() ==> s[j] != b,
        },
    decreases s.len(),
{
    if s.len() == 0 {
    } else if s[0] == b {
    } else {
        lemma_find_byte(s.skip(1), b);
        assert(forall|j: int| 0 <= j < s.skip(1).len() ==> s.skip(1)[j] == s[j + 1]);
        match find_byte(s.skip(1), b) {
            Some(i) => {
                assert(s[i + 1] == s.skip(1)[i]);
                assert forall|j: int| 0 <= j < i + 1 implies s[j] != b by {
                    if j > 0 {
                        assert(s[j] == s.skip(1)[j - 1]);
                    }
                }
            },
            None => {
                assert forall|j: int| 0 <= j < s.len() implies s[j] != b by {
                    if j > 0 {
                        assert(s[j] == s.skip(1)[j - 1]);
                    }
                }
            },
        }
    }
}

/// The index of the first occurrence of `b` in `v`, if any.
pub fn find_byte_index(v: &Vec<u8>, b: u8) -> (r: Option<usize>)
    ensures
        r matches Some(i) ==> i < v@.len() && v@[i as int] == b && find_byte(v@, b) == Some(
            i as int,
        ),
        r is None ==> find_byte(v@, b) is None,
{
    let mut i: usize = 0;
    while i < v.len()
        invariant
            i <= v.len(),
            forall|j: int| 0 <= j < i ==> v@[j] != b,
        decreases v.len() - i,
    {
        if v[i] == b {
            proof {
                lemma_find_byte(v@, b);
            }
            return Some(i);
        }
        i += 1;
    }
    proof {
        lemma_find_byte(v@, b);
    }
    None
}

} // verus!
