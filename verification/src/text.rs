//! Comparing texts, character by character.

use vstd::prelude::*;

verus! {

/// Whether `part` stands in `text` at the position `at`.
pub open spec fn occurs_at(part: Seq<char>, text: Seq<char>, at: int) -> bool {
    &&& 0 <= at
    &&& at + part.len() <= text.len()
    &&& text.subrange(at, at + part.len()) == part
}

/// Whether `part` stands somewhere in `text`.
pub open spec fn occurs_in(part: Seq<char>, text: Seq<char>) -> bool {
    exists|at: int| occurs_at(part, text, at)
}

/// Whether `part` stands in `text` at the position `at`.
pub fn starts_at(part: &str, text: &str, at: usize) -> (found: bool)
    ensures
        found == occurs_at(part@, text@, at as int),
{
    let part_len: usize = part.unicode_len();
    let text_len: usize = text.unicode_len();
    if at > text_len || part_len > text_len - at {
        return false;
    }
    let mut i: usize = 0;
    while i < part_len
        invariant
            i <= part_len,
            part_len == part@.len(),
            text_len == text@.len(),
            at + part_len <= text_len,
            forall|j: int| 0 <= j < i ==> text@[at + j] == part@[j],
        decreases part_len - i,
    {
        if text.get_char(at + i) != part.get_char(i) {
            return false;
        }
        i += 1;
    }
    proof {
        assert(text@.subrange(at as int, at + part@.len()) =~= part@);
    }
    true
}

/// Whether the two texts are the same.
pub fn same_text(a: &str, b: &str) -> (same: bool)
    ensures
        same == (a@ == b@),
{
    if a.unicode_len() != b.unicode_len() {
        return false;
    }
    let same = starts_at(a, b, 0);
    proof {
        assert(b@.subrange(0, b@.len() as int) =~= b@);
    }
    same
}

/// Whether `part` stands somewhere in `text`.
pub fn contains(text: &str, part: &str) -> (found: bool)
    ensures
        found == occurs_in(part@, text@),
{
    let text_len: usize = text.unicode_len();
    let mut at: usize = 0;
    while at < text_len
        invariant
            at <= text_len,
            text_len == text@.len(),
            forall|before: int| 0 <= before < at ==> !occurs_at(part@, text@, before),
        decreases text_len - at,
    {
        if starts_at(part, text, at) {
            return true;
        }
        at += 1;
    }
    starts_at(part, text, text_len)
}

} // verus!
