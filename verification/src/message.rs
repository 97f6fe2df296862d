//! The mathematical model of a status message, and what holds of it.

use vstd::prelude::*;
use crate::substring::{is_substring, lemma_appended_occurs, occurs_at};

verus! {

/// The notice that opens every status message.
pub const STATUS_PREFIX: &'static str = "Processing not yet implemented for ";

/// The status message for `page_id`: the notice, then the identifier, verbatim.
pub open spec fn status_message(page_id: Seq<char>) -> Seq<char> {
    STATUS_PREFIX@ + page_id
}

/// Every status message begins with the notice, whatever the identifier.
pub proof fn lemma_status_message_starts_with_prefix(page_id: Seq<char>)
    ensures
        STATUS_PREFIX@.is_prefix_of(status_message(page_id)),
{
}

/// The identifier occurs in its status message as an unbroken run of
/// characters: it fills the message from the end of the notice to the end of
/// the message.
pub proof fn lemma_status_message_contains_page_id(page_id: Seq<char>)
    ensures
        is_substring(page_id, status_message(page_id)),
        occurs_at(page_id, status_message(page_id), STATUS_PREFIX@.len() as int),
        status_message(page_id).len() == STATUS_PREFIX@.len() + page_id.len(),
{
    lemma_appended_occurs(STATUS_PREFIX@, page_id);
}

/// Two messages produced for one identifier are the same message.
pub proof fn lemma_status_message_deterministic(
    page_id: Seq<char>,
    first: Seq<char>,
    second: Seq<char>,
)
    requires
        first == status_message(page_id),
        second == status_message(page_id),
    ensures
        first == second,
{
}

} // verus!
