//! The reasons for which a posting fails.

use vstd::prelude::*;
use crate::helpers::decimal::{append_decimal, decimal_text};
use crate::posting::rules::Failure;

verus! {

/// Why a posting failed. Whatever the reason, nothing of the batch is kept.
#[derive(Debug)]
pub enum PostingError {
    /// A line names a product that is not on record.
    NotFound(i64),
    /// A sale asks for more of a product than is on hand.
    InsufficientStock(i64),
    /// The store itself failed; the text is the store's.
    Storage(String),
}

impl View for PostingError {
    type V = Failure;

    open spec fn view(&self) -> Failure {
        match self {
            PostingError::NotFound(id) => Failure::NotFound(*id as int),
            PostingError::InsufficientStock(id) => Failure::InsufficientStock(*id as int),
            PostingError::Storage(message) => Failure::Storage(message@),
        }
    }
}

/// The failure that a posting's result tells of, if it tells of one.
pub open spec fn failure_of(result: Result<(), PostingError>) -> Option<Failure> {
    match result {
        Ok(_) => None,
        Err(error) => Some(error@),
    }
}

/// The words in which a failure is reported.
pub open spec fn failure_text(failure: Failure) -> Seq<char> {
    match failure {
        Failure::NotFound(id) => "Product with ID "@ + decimal_text(id) + " not found"@,
        Failure::InsufficientStock(id) => "Insufficient stock for product ID "@ + decimal_text(id),
        Failure::Storage(message) => message,
    }
}

impl PostingError {
    /// The words in which the failure is reported.
    pub fn message(&self) -> (text: String)
        ensures
            text@ == failure_text(self@),
    {
        match self {
            PostingError::NotFound(id) => {
                let mut text = "Product with ID ".to_owned();
                append_decimal(&mut text, *id);
                text.append(" not found");
                text
            },
            PostingError::InsufficientStock(id) => {
                let mut text = "Insufficient stock for product ID ".to_owned();
                append_decimal(&mut text, *id);
                text
            },
            PostingError::Storage(message) => message.clone(),
        }
    }
}

impl Clone for PostingError {
    fn clone(&self) -> (copy: Self)
        ensures
            copy == *self,
    {
        match self {
            PostingError::NotFound(id) => PostingError::NotFound(*id),
            PostingError::InsufficientStock(id) => PostingError::InsufficientStock(*id),
            PostingError::Storage(message) => PostingError::Storage(message.clone()),
        }
    }
}

} // verus!
