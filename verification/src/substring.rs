//! Contiguous occurrence of one character sequence inside another.

use vstd::prelude::*;

verus! {

/// `needle` fills the positions `at .. at + needle.len()` of `text`.
pub open spec fn occurs_at(needle: Seq<char>, text: Seq<char>, at: int) -> bool {
    &&& 0 <= at
    &&& at + needle.len() <= text.len()
    &&& text.subrange(at, at + needle.len()) =~= needle
}

/// `needle` occurs somewhere in `text` as an unbroken run of characters.
/// The empty sequence occurs in every text.
///
/// Opaque, so that a proof meets the quantifier only where it asks for it
/// with `reveal(is_substring)`.
#[verifier::opaque]
pub open spec fn is_substring(needle: Seq<char>, text: Seq<char>) -> bool {
    exists|at: int| occurs_at(needle, text, at)
}

/// Whatever is appended to `lead` occurs in the result, right behind `lead`.
pub proof fn lemma_appended_occurs(lead: Seq<char>, needle: Seq<char>)
    ensures
        occurs_at(needle, lead + needle, lead.len() as int),
        is_substring(needle, lead + needle),
{
    reveal(is_substring);
    assert(occurs_at(needle, lead + needle, lead.len() as int));
}

} // verus!
