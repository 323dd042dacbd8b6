use solana_twitter::layout::{
    BUMP_LENGTH, DISCRIMINATOR_LENGTH, MAX_CONTENT_LENGTH, MAX_TOPIC_LENGTH, PUBKEY_LENGTH,
    STRING_PREFIX_LENGTH, TIMESTAMP_LENGTH, UNIQUE_SEED_LENGTH,
};
use solana_twitter::{Schema, Tweet};

#[test]
fn slot_of_a_tweet_has_1401_bytes() {
    assert_eq!(Tweet::LEN, 1401);
    assert_eq!(Tweet::LEN, 8 + 32 + 8 + 8 + (4 + 200) + (4 + 1120) + 16 + 1);
}

#[test]
fn schema_of_a_tweet_computes_the_slot_length() {
    let s = Schema::tweet();
    assert_eq!(s.slot_size(), 1401);
    assert_eq!(s.slot_size(), Tweet::LEN as u64);
}

#[test]
fn field_widths_add_up() {
    assert_eq!(DISCRIMINATOR_LENGTH, 8);
    assert_eq!(PUBKEY_LENGTH, 32);
    assert_eq!(TIMESTAMP_LENGTH, 8);
    assert_eq!(STRING_PREFIX_LENGTH, 4);
    assert_eq!(MAX_TOPIC_LENGTH, 200);
    assert_eq!(MAX_CONTENT_LENGTH, 1120);
    assert_eq!(UNIQUE_SEED_LENGTH, 16);
    assert_eq!(BUMP_LENGTH, 1);
}

#[test]
fn slot_size_follows_the_schema() {
    let s = Schema {
        discriminator: 8,
        identity: 32,
        timestamp: 8,
        seed: 16,
        bump: 1,
        length_prefix: 4,
        bytes_per_scalar: 1,
        max_topic: 10,
        max_content: 20,
    };
    assert_eq!(s.slot_size(), 8 + 32 + 8 + 8 + (4 + 10) + (4 + 20) + 16 + 1);
    let empty = Schema {
        discriminator: 0,
        identity: 0,
        timestamp: 0,
        seed: 0,
        bump: 0,
        length_prefix: 0,
        bytes_per_scalar: 0,
        max_topic: 0,
        max_content: 0,
    };
    assert_eq!(empty.slot_size(), 0);
}

#[test]
fn slot_size_of_the_widest_schema_does_not_overflow() {
    let m = u16::MAX;
    let s = Schema {
        discriminator: m,
        identity: m,
        timestamp: m,
        seed: m,
        bump: m,
        length_prefix: m,
        bytes_per_scalar: m,
        max_topic: m,
        max_content: m,
    };
    let w = 65535u64;
    assert_eq!(s.slot_size(), 6 * w + 2 * (w + w * w));
}

#[test]
fn longest_tweet_fits_its_slot() {
    let topic = "\u{1F980}".repeat(50);
    let content = "\u{1F980}".repeat(280);
    let written = 8 + 32 + 8 + 8 + 4 + topic.len() + 4 + content.len() + 16 + 1;
    assert_eq!(written, Tweet::LEN);
}
