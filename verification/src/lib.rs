//! Core of the page pipeline.
//!
//! For now the pipeline has a single entry point, [`process_page_stub`], which
//! answers every page identifier with a fixed notice followed by the
//! identifier itself.

use vstd::prelude::*;
use crate::message::{
    lemma_status_message_contains_page_id, lemma_status_message_starts_with_prefix,
    status_message, STATUS_PREFIX,
};
use crate::substring::{is_substring, occurs_at};

pub mod message;
pub mod substring;

verus! {

/// Returns the status message for `page_id`: a fresh string that reads
/// `"Processing not yet implemented for "` followed by `page_id`, unchanged.
///
/// Every identifier is accepted, the empty one included, and the call has no
/// effect besides building its result.
pub fn process_page_stub(page_id: &str) -> (message: String)
    ensures
        message@ == status_message(page_id@),
        STATUS_PREFIX@.is_prefix_of(message@),
        occurs_at(page_id@, message@, STATUS_PREFIX@.len() as int),
        is_substring(page_id@, message@),
{
    let mut message = String::from_str(STATUS_PREFIX);
    message.append(page_id);
    proof {
        lemma_status_message_starts_with_prefix(page_id@);
        lemma_status_message_contains_page_id(page_id@);
    }
    message
}

} // verus!
