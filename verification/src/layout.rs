//! The size of a slot, computed from the widths of a record's fields.
//!
//! A slot is sized once, for the longest record that the limits allow, so
//! that its cost is known before anything is written and never changes.

use vstd::prelude::*;

verus! {

/// Bytes kept at the head of a slot for the storage system's own tag.
pub const DISCRIMINATOR_LENGTH: usize = 8;

/// Bytes of an identity.
pub const PUBKEY_LENGTH: usize = 32;

/// Bytes of a timestamp.
pub const TIMESTAMP_LENGTH: usize = 8;

/// Bytes of the length that precedes each text.
pub const STRING_PREFIX_LENGTH: usize = 4;

/// The most Unicode scalar values that a topic may hold.
pub const MAX_TOPIC_CHARS: usize = 50;

/// The most Unicode scalar values that a content may hold.
pub const MAX_CONTENT_CHARS: usize = 280;

/// The most bytes that one Unicode scalar value takes in UTF-8.
pub const MAX_CHAR_BYTES: usize = 4;

/// Bytes reserved for the topic's text.
pub const MAX_TOPIC_LENGTH: usize = MAX_TOPIC_CHARS * MAX_CHAR_BYTES;

/// Bytes reserved for the content's text.
pub const MAX_CONTENT_LENGTH: usize = MAX_CONTENT_CHARS * MAX_CHAR_BYTES;

/// Bytes of a seed.
pub const UNIQUE_SEED_LENGTH: usize = 16;

/// Bytes of a bump.
pub const BUMP_LENGTH: usize = 1;

/// The widths from which a slot's size follows.
#[derive(Clone, Copy, Debug, PartialEq, Eq, Structural)]
pub struct Schema {
    /// Bytes of the storage system's tag at the head of the slot.
    pub discriminator: u16,
    /// Bytes of the owner's identity.
    pub identity: u16,
    /// Bytes of each of the two timestamps.
    pub timestamp: u16,
    /// Bytes of the seed.
    pub seed: u16,
    /// Bytes of the bump.
    pub bump: u16,
    /// Bytes of the length that precedes each text.
    pub length_prefix: u16,
    /// The most bytes that one scalar value takes in the text encoding.
    pub bytes_per_scalar: u16,
    /// The most scalar values of a topic.
    pub max_topic: u16,
    /// The most scalar values of a content.
    pub max_content: u16,
}

impl Schema {
    /// The bytes reserved for a text of at most `max` scalar values: its
    /// length prefix and the longest encoding.
    pub open spec fn text_size(self, max: u16) -> nat {
        (self.length_prefix + max * self.bytes_per_scalar) as nat
    }

    /// The bytes of a slot: the tag, every field of fixed width, and each
    /// text at its longest.
    pub open spec fn size(self) -> nat {
        self.discriminator as nat + self.identity as nat + self.timestamp as nat
            + self.timestamp as nat + self.text_size(self.max_topic) + self.text_size(
            self.max_content,
        ) + self.seed as nat + self.bump as nat
    }

    /// The schema of a post: a topic of up to 50 and a content of up to 280
    /// scalar values of up to 4 bytes each.
    pub open spec fn spec_tweet() -> Schema {
        Schema {
            discriminator: 8,
            identity: 32,
            timestamp: 8,
            seed: 16,
            bump: 1,
            length_prefix: 4,
            bytes_per_scalar: 4,
            max_topic: 50,
            max_content: 280,
        }
    }

    /// The schema of a post.
    pub fn tweet() -> (s: Schema)
        ensures
            s == Schema::spec_tweet(),
    {
        Schema {
            discriminator: 8,
            identity: 32,
            timestamp: 8,
            seed: 16,
            bump: 1,
            length_prefix: 4,
            bytes_per_scalar: 4,
            max_topic: 50,
            max_content: 280,
        }
    }

    /// Computes the bytes that a slot of this schema reserves.
    pub fn slot_size(&self) -> (r: u64)
        ensures
            r == self.size(),
    {
        let per: u64 = self.bytes_per_scalar as u64;
        let topic_max: u64 = self.max_topic as u64;
        let content_max: u64 = self.max_content as u64;
        assert(topic_max * per <= 0xffff * 0xffff) by (nonlinear_arith)
            requires
                topic_max <= 0xffff,
                per <= 0xffff,
        ;
        assert(content_max * per <= 0xffff * 0xffff) by (nonlinear_arith)
            requires
                content_max <= 0xffff,
                per <= 0xffff,
        ;
        let topic: u64 = self.length_prefix as u64 + topic_max * per;
        let content: u64 = self.length_prefix as u64 + content_max * per;
        self.discriminator as u64 + self.identity as u64 + self.timestamp as u64
            + self.timestamp as u64 + topic + content + self.seed as u64 + self.bump as u64
    }
}

} // verus!
