//! Searching a byte stream for a marker.

use vstd::prelude::*;
use vstd::slice::slice_to_vec;

verus! {

/// `needle` stands in `hay` at offset `at`.
pub open spec fn occurs_at(hay: Seq<u8>, needle: Seq<u8>, at: int) -> bool {
    &&& 0 <= at
    &&& at + needle.len() <= hay.len()
    &&& hay.subrange(at, at + needle.len()) == needle
}

/// `needle` stands somewhere in `hay`. The empty needle stands in every
/// sequence.
pub open spec fn contains(hay: Seq<u8>, needle: Seq<u8>) -> bool {
    exists|at: int| occurs_at(hay, needle, at)
}

/// The bytes of a text made of ASCII characters only.
pub open spec fn ascii_bytes(text: Seq<char>) -> Seq<u8> {
    Seq::new(text.len(), |i: int| text[i] as u8)
}

/// The first `upto` bytes of `needle` agree with `hay` from offset `at` on.
pub open spec fn agrees(hay: Seq<u8>, needle: Seq<u8>, at: int, upto: int) -> bool {
    forall|k: int| 0 <= k < upto ==> hay[at + k] == needle[k]
}

/// An occurrence is an agreement over the whole needle.
pub proof fn lemma_occurs_at_is_agreement(hay: Seq<u8>, needle: Seq<u8>, at: int)
    requires
        0 <= at,
        at + needle.len() <= hay.len(),
    ensures
        occurs_at(hay, needle, at) <==> agrees(hay, needle, at, needle.len() as int),
{
    let window = hay.subrange(at, at + needle.len());
    if agrees(hay, needle, at, needle.len() as int) {
        assert(window =~= needle);
    }
    if occurs_at(hay, needle, at) {
        assert forall|k: int| 0 <= k < needle.len() implies hay[at + k] == needle[k] by {
            assert(window[k] == hay[at + k]);
        }
    }
}

/// Whether `needle` stands in `hay` at offset `at`.
fn matches_at(hay: &[u8], needle: &[u8], at: usize) -> (found: bool)
    requires
        at + needle@.len() <= hay@.len(),
    ensures
        found == occurs_at(hay@, needle@, at as int),
{
    let width: usize = needle.len();
    let length: usize = hay.len();
    let mut k: usize = 0;
    while k < width
        invariant
            k <= width,
            width == needle@.len(),
            length == hay@.len(),
            at + width <= length,
            agrees(hay@, needle@, at as int, k as int),
        decreases width - k,
    {
        if hay[at + k] != needle[k] {
            proof {
                lemma_occurs_at_is_agreement(hay@, needle@, at as int);
            }
            return false;
        }
        k += 1;
    }
    proof {
        lemma_occurs_at_is_agreement(hay@, needle@, at as int);
    }
    true
}

/// The offset of the first occurrence of `needle` in `hay`.
pub fn find(hay: &[u8], needle: &[u8]) -> (found: Option<usize>)
    ensures
        match found {
            Some(at) => {
                &&& occurs_at(hay@, needle@, at as int)
                &&& forall|earlier: int| 0 <= earlier < at ==> !occurs_at(hay@, needle@, earlier)
            },
            None => !contains(hay@, needle@),
        },
{
    if needle.len() > hay.len() {
        return None;
    }
    let last: usize = hay.len() - needle.len();
    let mut at: usize = 0;
    loop
        invariant
            last == hay@.len() - needle@.len(),
            at <= last,
            forall|earlier: int| 0 <= earlier < at ==> !occurs_at(hay@, needle@, earlier),
        decreases last - at,
    {
        if matches_at(hay, needle, at) {
            return Some(at);
        }
        if at == last {
            return None;
        }
        at += 1;
    }
}

/// Whether `needle` stands somewhere in `hay`.
pub fn contains_bytes(hay: &[u8], needle: &[u8]) -> (found: bool)
    ensures
        found == contains(hay@, needle@),
{
    find(hay, needle).is_some()
}

/// A log as it is printed: its bytes, then a line feed.
pub fn render_log(log: &[u8]) -> (printed: Vec<u8>)
    ensures
        printed@ == log@.push(10u8),
{
    let mut printed = slice_to_vec(log);
    printed.push(10u8);
    printed
}

} // verus!
