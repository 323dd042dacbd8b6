//! The reasons for which an operation on a post is turned down.

use vstd::prelude::*;

verus! {

/// Why an operation failed. An operation that fails changes nothing.
#[derive(Clone, Copy, Debug, PartialEq, Eq, Structural)]
pub enum ErrorCode {
    /// The topic holds more than 50 Unicode scalar values.
    TopicTooLong,
    /// The content holds more than 280 Unicode scalar values.
    ContentTooLong,
    /// The caller is not the author of the post, or the slot is not the one
    /// that the author and the stored seed and bump derive.
    Unauthorized,
    /// The slot at the derived address already holds a post.
    SlotAlreadyExists,
    /// The slot holds no post.
    NotFound,
    /// None of the 256 bump values gives a usable address for this seed.
    AddressDerivationExhausted,
}

impl ErrorCode {
    /// The message shown to a user for this error.
    pub fn message(&self) -> (s: &'static str)
        ensures
            s@ == self.spec_message(),
    {
        match self {
            ErrorCode::TopicTooLong => "The provided topic should be 50 characters long maximum.",
            ErrorCode::ContentTooLong => "The provided content should be 280 characters long maximum.",
            ErrorCode::Unauthorized => "Only the author of a tweet may change or delete it.",
            ErrorCode::SlotAlreadyExists => "A tweet already exists for this author and seed.",
            ErrorCode::NotFound => "No tweet exists at this address.",
            ErrorCode::AddressDerivationExhausted => "No address can be derived for this seed.",
        }
    }

    /// The text of `message`, as a sequence of characters.
    pub open spec fn spec_message(&self) -> Seq<char> {
        match self {
            ErrorCode::TopicTooLong => "The provided topic should be 50 characters long maximum."@,
            ErrorCode::ContentTooLong => "The provided content should be 280 characters long maximum."@,
            ErrorCode::Unauthorized => "Only the author of a tweet may change or delete it."@,
            ErrorCode::SlotAlreadyExists => "A tweet already exists for this author and seed."@,
            ErrorCode::NotFound => "No tweet exists at this address."@,
            ErrorCode::AddressDerivationExhausted => "No address can be derived for this seed."@,
        }
    }
}

} // verus!
