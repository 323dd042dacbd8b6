//! Creating, changing and removing a post.
//!
//! Each operation works on the slot that its context holds: `None` while
//! the slot is absent, `Some` while it holds a post. An operation either
//! succeeds and leaves the slot in its next state, or fails with the reason
//! and leaves the context as it was. Fetching the slot, storing it back and
//! reading the clock are the caller's part.

use vstd::prelude::*;
use crate::address::{derived, find_address, same_bytes, tweet_address, verify_address};
use crate::error::ErrorCode;
use crate::layout::{MAX_CONTENT_CHARS, MAX_TOPIC_CHARS};
use crate::record::{Tweet, TweetView};

verus! {

/// What creating a post works on.
#[derive(Clone, Debug, PartialEq, Eq)]
pub struct SendTweet {
    /// The identity that authorised the operation.
    pub author: [u8; 32],
    /// The slot at the address that the author and the seed derive.
    pub tweet: Option<Tweet>,
    /// The current time, in seconds.
    pub unix_timestamp: i64,
}

/// What changing a post works on.
#[derive(Clone, Debug, PartialEq, Eq)]
pub struct UpdateTweet {
    /// The identity that authorised the operation.
    pub author: [u8; 32],
    /// The address of the slot.
    pub address: [u8; 32],
    /// The slot at that address.
    pub tweet: Option<Tweet>,
    /// The current time, in seconds.
    pub unix_timestamp: i64,
}

/// What removing a post works on.
#[derive(Clone, Debug, PartialEq, Eq)]
pub struct DeleteTweet {
    /// The identity that authorised the operation.
    pub author: [u8; 32],
    /// The address of the slot.
    pub address: [u8; 32],
    /// The slot at that address.
    pub tweet: Option<Tweet>,
}

/// The model of a slot: nothing, or the model of the post in it.
pub open spec fn slot_view(slot: Option<Tweet>) -> Option<TweetView> {
    match slot {
        Some(t) => Some(t@),
        None => None,
    }
}

/// The first limit that a topic and a content break, if they break one.
pub open spec fn length_error(topic: Seq<char>, content: Seq<char>) -> Option<ErrorCode> {
    if topic.len() > MAX_TOPIC_CHARS {
        Some(ErrorCode::TopicTooLong)
    } else if content.len() > MAX_CONTENT_CHARS {
        Some(ErrorCode::ContentTooLong)
    } else {
        None
    }
}

/// The post that a creation stamps.
pub open spec fn created(
    author: Seq<u8>,
    topic: Seq<char>,
    content: Seq<char>,
    seed: Seq<u8>,
    bump: u8,
    now: i64,
) -> TweetView {
    TweetView {
        author,
        created_timestamp: now,
        updated_timestamp: now,
        topic,
        content,
        unique_seed: seed,
        bump,
    }
}

/// The post that a change leaves: new texts and a new time of change, the
/// rest as it was.
pub open spec fn updated(t: TweetView, topic: Seq<char>, content: Seq<char>, now: i64) -> TweetView {
    TweetView { updated_timestamp: now, topic, content, ..t }
}

/// What creating a post does to a slot, given what the derivation found:
/// the new post and its address, or the reason for which nothing is
/// created. The texts are checked first, then the derivation must have
/// found an address, then the slot must be absent.
pub open spec fn create_outcome(
    slot: Option<TweetView>,
    author: Seq<u8>,
    topic: Seq<char>,
    content: Seq<char>,
    seed: Seq<u8>,
    now: i64,
    found: Option<(Seq<u8>, u8)>,
) -> Result<(TweetView, Seq<u8>), ErrorCode> {
    match length_error(topic, content) {
        Some(e) => Err(e),
        None => match found {
            None => Err(ErrorCode::AddressDerivationExhausted),
            Some((address, bump)) => if slot is Some {
                Err(ErrorCode::SlotAlreadyExists)
            } else {
                Ok((created(author, topic, content, seed, bump, now), address))
            },
        },
    }
}

/// What changing a post does to a slot, given whether the slot's address
/// was confirmed: the changed post, or the reason for which nothing is
/// changed. The slot must hold a post, the caller must be its author at a
/// confirmed address, and the texts must keep to their limits, in this
/// order.
pub open spec fn revise_outcome(
    slot: Option<TweetView>,
    caller: Seq<u8>,
    address_ok: bool,
    topic: Seq<char>,
    content: Seq<char>,
    now: i64,
) -> Result<TweetView, ErrorCode> {
    match slot {
        None => Err(ErrorCode::NotFound),
        Some(t) => if caller != t.author || !address_ok {
            Err(ErrorCode::Unauthorized)
        } else {
            match length_error(topic, content) {
                Some(e) => Err(e),
                None => Ok(updated(t, topic, content, now)),
            }
        },
    }
}

/// Whether a post may be removed from a slot, given whether the slot's
/// address was confirmed, or the reason for which it stays.
pub open spec fn remove_outcome(slot: Option<TweetView>, caller: Seq<u8>, address_ok: bool) -> Result<
    (),
    ErrorCode,
> {
    match slot {
        None => Err(ErrorCode::NotFound),
        Some(t) => if caller != t.author || !address_ok {
            Err(ErrorCode::Unauthorized)
        } else {
            Ok(())
        },
    }
}

/// `address` is the one that `caller` and the seed and bump stored in the
/// slot give. An absent slot confirms no address.
pub open spec fn address_confirmed(slot: Option<TweetView>, caller: Seq<u8>, address: Seq<u8>) -> bool {
    match slot {
        None => false,
        Some(t) => tweet_address(caller, t.unique_seed, t.bump) == Some(address),
    }
}

/// What creating the post of `author` with `seed` does to a slot.
pub open spec fn send_outcome(
    slot: Option<TweetView>,
    author: Seq<u8>,
    topic: Seq<char>,
    content: Seq<char>,
    seed: Seq<u8>,
    now: i64,
) -> Result<(TweetView, Seq<u8>), ErrorCode> {
    create_outcome(slot, author, topic, content, seed, now, derived(author, seed))
}

/// What changing the post in the slot at `address` does to the slot.
pub open spec fn update_outcome(
    slot: Option<TweetView>,
    caller: Seq<u8>,
    address: Seq<u8>,
    topic: Seq<char>,
    content: Seq<char>,
    now: i64,
) -> Result<TweetView, ErrorCode> {
    revise_outcome(slot, caller, address_confirmed(slot, caller, address), topic, content, now)
}

/// Whether the post in the slot at `address` may be removed.
pub open spec fn delete_outcome(slot: Option<TweetView>, caller: Seq<u8>, address: Seq<u8>) -> Result<
    (),
    ErrorCode,
> {
    remove_outcome(slot, caller, address_confirmed(slot, caller, address))
}

/// The model of what a derivation found.
pub open spec fn found_view(found: Option<([u8; 32], u8)>) -> Option<(Seq<u8>, u8)> {
    match found {
        Some((address, bump)) => Some((address@, bump)),
        None => None,
    }
}

/// Checks a topic and a content against their limits, counted in Unicode
/// scalar values. The topic is checked first.
pub fn check_lengths(topic: &str, content: &str) -> (r: Result<(), ErrorCode>)
    ensures
        match r {
            Ok(_) => length_error(topic@, content@) is None,
            Err(e) => length_error(topic@, content@) == Some(e),
        },
{
    if topic.unicode_len() > MAX_TOPIC_CHARS {
        Err(ErrorCode::TopicTooLong)
    } else if content.unicode_len() > MAX_CONTENT_CHARS {
        Err(ErrorCode::ContentTooLong)
    } else {
        Ok(())
    }
}

/// Creates a post in the context's slot, given what the derivation of the
/// address found for the context's author and `unique_seed`.
///
/// On success the slot holds the new post, both timestamps set to the
/// context's time, and the address and bump are handed back. On failure the
/// context is unchanged.
pub fn create_record(
    ctx: &mut SendTweet,
    topic: String,
    content: String,
    unique_seed: [u8; 16],
    found: Option<([u8; 32], u8)>,
) -> (r: Result<([u8; 32], u8), ErrorCode>)
    ensures
        final(ctx).author == old(ctx).author,
        final(ctx).unix_timestamp == old(ctx).unix_timestamp,
        match r {
            Ok((address, bump)) => {
                &&& found == Some((address, bump))
                &&& final(ctx).tweet is Some
                &&& final(ctx).tweet->0.bump == bump
                &&& final(ctx).tweet->0@.within_limits()
                &&& create_outcome(
                    slot_view(old(ctx).tweet),
                    old(ctx).author@,
                    topic@,
                    content@,
                    unique_seed@,
                    old(ctx).unix_timestamp,
                    found_view(found),
                ) == Ok::<(TweetView, Seq<u8>), ErrorCode>((final(ctx).tweet->0@, address@))
            },
            Err(e) => {
                &&& *final(ctx) == *old(ctx)
                &&& create_outcome(
                    slot_view(old(ctx).tweet),
                    old(ctx).author@,
                    topic@,
                    content@,
                    unique_seed@,
                    old(ctx).unix_timestamp,
                    found_view(found),
                ) == Err::<(TweetView, Seq<u8>), ErrorCode>(e)
            },
        },
{
    match check_lengths(topic.as_str(), content.as_str()) {
        Err(e) => {
            return Err(e);
        },
        Ok(_) => {},
    }
    let (address, bump) = match found {
        None => {
            return Err(ErrorCode::AddressDerivationExhausted);
        },
        Some(pair) => pair,
    };
    if ctx.tweet.is_some() {
        return Err(ErrorCode::SlotAlreadyExists);
    }
    ctx.tweet = Some(
        Tweet {
            author: ctx.author,
            created_timestamp: ctx.unix_timestamp,
            updated_timestamp: ctx.unix_timestamp,
            topic,
            content,
            unique_seed,
            bump,
        },
    );
    Ok((address, bump))
}

/// Replaces the topic and the content of the post in the context's slot and
/// sets its time of change to the context's time, given whether the slot's
/// address was confirmed.
///
/// On failure the context is unchanged.
pub fn update_record(ctx: &mut UpdateTweet, topic: String, content: String, address_ok: bool) -> (r:
    Result<(), ErrorCode>)
    ensures
        final(ctx).author == old(ctx).author,
        final(ctx).address == old(ctx).address,
        final(ctx).unix_timestamp == old(ctx).unix_timestamp,
        match r {
            Ok(_) => {
                &&& final(ctx).tweet is Some
                &&& final(ctx).tweet->0@.within_limits()
                &&& revise_outcome(
                    slot_view(old(ctx).tweet),
                    old(ctx).author@,
                    address_ok,
                    topic@,
                    content@,
                    old(ctx).unix_timestamp,
                ) == Ok::<TweetView, ErrorCode>(final(ctx).tweet->0@)
            },
            Err(e) => {
                &&& *final(ctx) == *old(ctx)
                &&& revise_outcome(
                    slot_view(old(ctx).tweet),
                    old(ctx).author@,
                    address_ok,
                    topic@,
                    content@,
                    old(ctx).unix_timestamp,
                ) == Err::<TweetView, ErrorCode>(e)
            },
        },
{
    let (author, created_timestamp, unique_seed, bump) = match &ctx.tweet {
        None => {
            return Err(ErrorCode::NotFound);
        },
        Some(t) => (t.author, t.created_timestamp, t.unique_seed, t.bump),
    };
    if !same_bytes(&ctx.author, &author) || !address_ok {
        return Err(ErrorCode::Unauthorized);
    }
    match check_lengths(topic.as_str(), content.as_str()) {
        Err(e) => {
            return Err(e);
        },
        Ok(_) => {},
    }
    ctx.tweet = Some(
        Tweet {
            author,
            created_timestamp,
            updated_timestamp: ctx.unix_timestamp,
            topic,
            content,
            unique_seed,
            bump,
        },
    );
    Ok(())
}

/// Removes the post from the context's slot, which is absent afterwards,
/// given whether the slot's address was confirmed.
///
/// On failure the context is unchanged.
pub fn delete_record(ctx: &mut DeleteTweet, address_ok: bool) -> (r: Result<(), ErrorCode>)
    ensures
        final(ctx).author == old(ctx).author,
        final(ctx).address == old(ctx).address,
        r == remove_outcome(slot_view(old(ctx).tweet), old(ctx).author@, address_ok),
        r is Ok ==> final(ctx).tweet is None,
        r is Err ==> *final(ctx) == *old(ctx),
{
    let author = match &ctx.tweet {
        None => {
            return Err(ErrorCode::NotFound);
        },
        Some(t) => t.author,
    };
    if !same_bytes(&ctx.author, &author) || !address_ok {
        return Err(ErrorCode::Unauthorized);
    }
    ctx.tweet = None;
    Ok(())
}

/// Tells whether the context's address is the one that `caller` and the seed
/// and bump stored in `slot` give.
pub fn confirm_address(slot: &Option<Tweet>, caller: &[u8; 32], address: &[u8; 32]) -> (r: bool)
    ensures
        r == address_confirmed(slot_view(*slot), caller@, address@),
{
    match slot {
        None => false,
        Some(t) => verify_address(caller, &t.unique_seed, t.bump, address),
    }
}

/// Creates the post of the context's author with `unique_seed`, and gives
/// the slot's address and bump.
///
/// On success the slot holds the new post, both timestamps set to the
/// context's time. On failure the context is unchanged.
pub fn send_tweet(ctx: &mut SendTweet, topic: String, content: String, unique_seed: [u8; 16]) -> (r:
    Result<([u8; 32], u8), ErrorCode>)
    ensures
        final(ctx).author == old(ctx).author,
        final(ctx).unix_timestamp == old(ctx).unix_timestamp,
        match r {
            Ok((address, bump)) => {
                &&& derived(old(ctx).author@, unique_seed@) == Some((address@, bump))
                &&& final(ctx).tweet is Some
                &&& final(ctx).tweet->0.bump == bump
                &&& final(ctx).tweet->0@.within_limits()
                &&& send_outcome(
                    slot_view(old(ctx).tweet),
                    old(ctx).author@,
                    topic@,
                    content@,
                    unique_seed@,
                    old(ctx).unix_timestamp,
                ) == Ok::<(TweetView, Seq<u8>), ErrorCode>((final(ctx).tweet->0@, address@))
            },
            Err(e) => {
                &&& *final(ctx) == *old(ctx)
                &&& send_outcome(
                    slot_view(old(ctx).tweet),
                    old(ctx).author@,
                    topic@,
                    content@,
                    unique_seed@,
                    old(ctx).unix_timestamp,
                ) == Err::<(TweetView, Seq<u8>), ErrorCode>(e)
            },
        },
{
    let found = match find_address(&ctx.author, &unique_seed) {
        Ok(pair) => Some(pair),
        Err(_) => None,
    };
    create_record(ctx, topic, content, unique_seed, found)
}

/// Replaces the topic and the content of the post in the context's slot and
/// sets its time of change to the context's time.
///
/// On failure the context is unchanged.
pub fn update_tweet(ctx: &mut UpdateTweet, topic: String, content: String) -> (r: Result<
    (),
    ErrorCode,
>)
    ensures
        final(ctx).author == old(ctx).author,
        final(ctx).address == old(ctx).address,
        final(ctx).unix_timestamp == old(ctx).unix_timestamp,
        match r {
            Ok(_) => {
                &&& final(ctx).tweet is Some
                &&& final(ctx).tweet->0@.within_limits()
                &&& update_outcome(
                    slot_view(old(ctx).tweet),
                    old(ctx).author@,
                    old(ctx).address@,
                    topic@,
                    content@,
                    old(ctx).unix_timestamp,
                ) == Ok::<TweetView, ErrorCode>(final(ctx).tweet->0@)
            },
            Err(e) => {
                &&& *final(ctx) == *old(ctx)
                &&& update_outcome(
                    slot_view(old(ctx).tweet),
                    old(ctx).author@,
                    old(ctx).address@,
                    topic@,
                    content@,
                    old(ctx).unix_timestamp,
                ) == Err::<TweetView, ErrorCode>(e)
            },
        },
{
    let address_ok = confirm_address(&ctx.tweet, &ctx.author, &ctx.address);
    update_record(ctx, topic, content, address_ok)
}

/// Removes the post from the context's slot, which is absent afterwards.
///
/// On failure the context is unchanged.
pub fn delete_tweet(ctx: &mut DeleteTweet) -> (r: Result<(), ErrorCode>)
    ensures
        final(ctx).author == old(ctx).author,
        final(ctx).address == old(ctx).address,
        r == delete_outcome(slot_view(old(ctx).tweet), old(ctx).author@, old(ctx).address@),
        r is Ok ==> final(ctx).tweet is None,
        r is Err ==> *final(ctx) == *old(ctx),
{
    let address_ok = confirm_address(&ctx.tweet, &ctx.author, &ctx.address);
    delete_record(ctx, address_ok)
}

} // verus!
