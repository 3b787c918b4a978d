//! Byte-sequence predicates and searches.
//!
//! The variant classifier inspects the raw standard output of a candidate
//! resource compiler, so prefix and substring tests on byte vectors are the
//! basic vocabulary here.

use vstd::prelude::*;

verus! {

/// `p` is a prefix of `s`.
pub open spec fn seq_starts_with<A>(s: Seq<A>, p: Seq<A>) -> bool {
    p.len() <= s.len() && s.subrange(0, p.len() as int) == p
}

/// `n` occurs somewhere in `s` as a contiguous run.
pub open spec fn seq_contains<A>(s: Seq<A>, n: Seq<A>) -> bool {
    exists|i: int| 0 <= i && i + n.len() <= s.len() && #[trigger] s.subrange(i, i + n.len()) == n
}

/// Whether the byte vector `s` begins with the bytes of `p`.
pub fn bytes_start_with(s: &Vec<u8>, p: &Vec<u8>) -> (r: bool)
    ensures
        r == seq_starts_with(s@, p@),
{
    if p.len() > s.len() {
        return false;
    }
    let mut i: usize = 0;
    while i < p.len()
        invariant
            i <= p.len() <= s.len(),
            forall|j: int| 0 <= j < i ==> s@[j] == p@[j],
        decreases p.len() - i,
    {
        if s[i] != p[i] {
            proof {
                assert(s@.subrange(0, p@.len() as int)[i as int] != p@[i as int]);
            }
            return false;
        }
        i += 1;
    }
    proof {
        assert(s@.subrange(0, p@.len() as int) =~= p@);
    }
    true
}

/// Index of the first occurrence of `needle` in `haystack`, if any.
///
/// Relies on `memchr::memmem::find`: it returns the index of the first
/// occurrence of the needle in the haystack, or `None` when the needle does
/// not occur (an empty needle occurs at index 0).
#[verifier::external_body]
pub fn find_subslice(haystack: &Vec<u8>, needle: &Vec<u8>) -> (r: Option<usize>)
    ensures
        match r {
            Option::Some(i) => 0 <= i && i + needle@.len() <= haystack@.len()
                && haystack@.subrange(i as int, i + needle@.len()) == needle@
                && (forall|j: int|
                    0 <= j < i ==> #[trigger] haystack@.subrange(j, j + needle@.len())
                        != needle@),
            Option::None => !seq_contains(haystack@, needle@),
        },
{
    memchr::memmem::find(haystack.as_slice(), needle.as_slice())
}

/// Whether `needle` occurs anywhere in `haystack`.
pub fn bytes_contain(haystack: &Vec<u8>, needle: &Vec<u8>) -> (r: bool)
    ensures
        r == seq_contains(haystack@, needle@),
{
    match find_subslice(haystack, needle) {
        Option::Some(_) => true,
        Option::None => false,
    }
}

} // verus!
