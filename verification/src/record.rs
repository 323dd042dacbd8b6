//! The stored post and its mathematical model.

use vstd::prelude::*;
use vstd::utf8::encode_utf8;
use crate::layout::{
    Schema, BUMP_LENGTH, DISCRIMINATOR_LENGTH, MAX_CHAR_BYTES, MAX_CONTENT_CHARS,
    MAX_CONTENT_LENGTH, MAX_TOPIC_CHARS, MAX_TOPIC_LENGTH, PUBKEY_LENGTH, STRING_PREFIX_LENGTH,
    TIMESTAMP_LENGTH, UNIQUE_SEED_LENGTH,
};

verus! {

/// A post as it is stored in its slot.
#[derive(Clone, Debug, PartialEq, Eq)]
pub struct Tweet {
    /// The identity that created the post, and the only one that may change
    /// or remove it.
    pub author: [u8; 32],
    /// When the post was created, in seconds.
    pub created_timestamp: i64,
    /// When the post was created or last changed, in seconds.
    pub updated_timestamp: i64,
    /// The topic, of at most 50 scalar values.
    pub topic: String,
    /// The content, of at most 280 scalar values.
    pub content: String,
    /// The seed that, with the author, gives the slot's address.
    pub unique_seed: [u8; 16],
    /// The bump under which the address was derived.
    pub bump: u8,
}

/// What a post holds, as plain mathematical values.
pub struct TweetView {
    pub author: Seq<u8>,
    pub created_timestamp: i64,
    pub updated_timestamp: i64,
    pub topic: Seq<char>,
    pub content: Seq<char>,
    pub unique_seed: Seq<u8>,
    pub bump: u8,
}

impl View for Tweet {
    type V = TweetView;

    open spec fn view(&self) -> TweetView {
        TweetView {
            author: self.author@,
            created_timestamp: self.created_timestamp,
            updated_timestamp: self.updated_timestamp,
            topic: self.topic@,
            content: self.content@,
            unique_seed: self.unique_seed@,
            bump: self.bump,
        }
    }
}

impl TweetView {
    /// The topic and the content keep to their limits, counted in Unicode
    /// scalar values.
    pub open spec fn within_limits(self) -> bool {
        &&& self.topic.len() <= MAX_TOPIC_CHARS
        &&& self.content.len() <= MAX_CONTENT_CHARS
    }

    /// The bytes that the post takes when written out: the tag, the fields
    /// of fixed width, and each text in UTF-8 behind its length.
    pub open spec fn encoded_len(self) -> nat {
        DISCRIMINATOR_LENGTH as nat + PUBKEY_LENGTH as nat + TIMESTAMP_LENGTH as nat
            + TIMESTAMP_LENGTH as nat + STRING_PREFIX_LENGTH as nat + encode_utf8(self.topic).len()
            + STRING_PREFIX_LENGTH as nat + encode_utf8(self.content).len()
            + UNIQUE_SEED_LENGTH as nat + BUMP_LENGTH as nat
    }
}

impl Tweet {
    /// The bytes of a post's slot.
    pub const LEN: usize = DISCRIMINATOR_LENGTH + PUBKEY_LENGTH + TIMESTAMP_LENGTH
        + TIMESTAMP_LENGTH + STRING_PREFIX_LENGTH + MAX_TOPIC_LENGTH + STRING_PREFIX_LENGTH
        + MAX_CONTENT_LENGTH + UNIQUE_SEED_LENGTH + BUMP_LENGTH;

    /// Tells whether the topic and the content keep to their limits.
    pub fn within_limits(&self) -> (r: bool)
        ensures
            r == self@.within_limits(),
    {
        self.topic.as_str().unicode_len() <= MAX_TOPIC_CHARS
            && self.content.as_str().unicode_len() <= MAX_CONTENT_CHARS
    }
}

/// A text in UTF-8 takes at most 4 bytes for each of its scalar values.
pub proof fn lemma_utf8_len_bound(chars: Seq<char>)
    ensures
        encode_utf8(chars).len() <= MAX_CHAR_BYTES * chars.len(),
    decreases chars.len(),
{
    if chars.len() > 0 {
        lemma_utf8_len_bound(chars.drop_first());
    }
}

/// The slot of a post has 1401 bytes, which is what the schema of a post
/// computes.
pub proof fn lemma_slot_len()
    ensures
        Tweet::LEN == 1401,
        Schema::spec_tweet().size() == Tweet::LEN,
        Tweet::LEN == 8 + 32 + 8 + 8 + (4 + 200) + (4 + 1120) + 16 + 1,
{
}

/// No post that keeps to its limits takes more bytes than its slot has.
pub proof fn lemma_slot_holds_record(t: TweetView)
    requires
        t.within_limits(),
    ensures
        t.encoded_len() <= Tweet::LEN,
{
    lemma_utf8_len_bound(t.topic);
    lemma_utf8_len_bound(t.content);
}

} // verus!
