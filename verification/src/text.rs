//! Substring containment over character sequences, used to state that the
//! "bundle not found" message lists every path that was searched.

use vstd::prelude::*;

verus! {

/// `needle` occurs in `hay` starting at offset `k`.
pub open spec fn is_substring_at(hay: Seq<char>, needle: Seq<char>, k: int) -> bool {
    &&& 0 <= k
    &&& k + needle.len() <= hay.len()
    &&& hay.subrange(k, k + needle.len() as int) == needle
}

/// `needle` occurs somewhere in `hay`.
pub open spec fn contains_seq(hay: Seq<char>, needle: Seq<char>) -> bool {
    exists|k: int| is_substring_at(hay, needle, k)
}

/// A needle contained in `b` is contained in `a + b`.
pub proof fn lemma_contains_append_left(a: Seq<char>, b: Seq<char>, needle: Seq<char>)
    requires
        contains_seq(b, needle),
    ensures
        contains_seq(a + b, needle),
{
    let k = choose|k: int| is_substring_at(b, needle, k);
    let j = a.len() + k;
    assert((a + b).subrange(j, j + needle.len() as int) =~= b.subrange(k, k + needle.len() as int));
    assert(is_substring_at(a + b, needle, j));
}

/// A sequence is a substring of itself followed by anything.
pub proof fn lemma_contains_prefix(needle: Seq<char>, tail: Seq<char>)
    ensures
        contains_seq(needle + tail, needle),
{
    assert((needle + tail).subrange(0, needle.len() as int) =~= needle);
    assert(is_substring_at(needle + tail, needle, 0));
}

} // verus!
