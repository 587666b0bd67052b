//! What a validator answers when it is asked about a date.

use vstd::prelude::*;

verus! {

/// The message shown when an answer is rejected.
#[derive(Clone, Debug, PartialEq, Eq)]
pub enum ErrorMessage {
    /// The prompt's standard message.
    Default,
    /// A message of the validator's own.
    Custom(String),
}

/// A validator's judgement of an answer.
#[derive(Clone, Debug, PartialEq, Eq)]
pub enum Validation {
    /// The answer is accepted.
    Valid,
    /// The answer is rejected, with the message to show.
    Invalid(ErrorMessage),
}

} // verus!
