//! What holds of the operations on a post, whatever their inputs.
//!
//! Each statement is about the outcome functions that the operations'
//! contracts are written in, so it holds of every call.

use vstd::prelude::*;
use crate::address::{derived, is_canonical_bump, tweet_address};
use crate::error::ErrorCode;
use crate::layout::{MAX_CONTENT_CHARS, MAX_TOPIC_CHARS};
use crate::lifecycle::{
    address_confirmed, created, delete_outcome, send_outcome, update_outcome, updated,
};
use crate::record::TweetView;

verus! {

/// What a derivation finds is an address that its bump gives, and no larger
/// bump gives any: deriving again from the same owner and seed can find
/// nothing else.
pub proof fn lemma_derived_address(owner: Seq<u8>, seed: Seq<u8>, address: Seq<u8>, bump: u8)
    requires
        derived(owner, seed) == Some((address, bump)),
    ensures
        is_canonical_bump(owner, seed, bump),
        tweet_address(owner, seed, bump) == Some(address),
{
}

/// Two derivations from the same owner and seed give the same address and
/// the same bump.
pub proof fn lemma_derivation_deterministic(
    owner: Seq<u8>,
    seed: Seq<u8>,
    first: (Seq<u8>, u8),
    second: (Seq<u8>, u8),
)
    requires
        derived(owner, seed) == Some(first),
        derived(owner, seed) == Some(second),
    ensures
        first == second,
        is_canonical_bump(owner, seed, first.1),
        tweet_address(owner, seed, first.1) == Some(first.0),
{
}

/// Creating a post with a topic of at most 50 and a content of at most 280
/// scalar values succeeds where the slot is absent and the seed gives an
/// address, and the post holds exactly what was handed in, with both
/// timestamps at the time of creation.
pub proof fn lemma_create_stores_inputs(
    author: Seq<u8>,
    topic: Seq<char>,
    content: Seq<char>,
    seed: Seq<u8>,
    now: i64,
)
    requires
        topic.len() <= MAX_TOPIC_CHARS,
        content.len() <= MAX_CONTENT_CHARS,
        derived(author, seed) is Some,
    ensures
        send_outcome(None, author, topic, content, seed, now) matches Ok((t, address)) && {
            &&& derived(author, seed) == Some((address, t.bump))
            &&& t.author == author
            &&& t.topic == topic
            &&& t.content == content
            &&& t.unique_seed == seed
            &&& t.created_timestamp == now
            &&& t.updated_timestamp == now
            &&& t.within_limits()
        },
{
}

/// A topic of more than 50 scalar values is turned down as too long,
/// whatever else is handed in and whatever the slot holds.
pub proof fn lemma_long_topic_refused(
    slot: Option<TweetView>,
    author: Seq<u8>,
    topic: Seq<char>,
    content: Seq<char>,
    seed: Seq<u8>,
    now: i64,
)
    requires
        topic.len() > MAX_TOPIC_CHARS,
    ensures
        send_outcome(slot, author, topic, content, seed, now) == Err::<(TweetView, Seq<u8>), ErrorCode>(
            ErrorCode::TopicTooLong,
        ),
{
}

/// A content of more than 280 scalar values is turned down as too long
/// where the topic keeps to its limit.
pub proof fn lemma_long_content_refused(
    slot: Option<TweetView>,
    author: Seq<u8>,
    topic: Seq<char>,
    content: Seq<char>,
    seed: Seq<u8>,
    now: i64,
)
    requires
        topic.len() <= MAX_TOPIC_CHARS,
        content.len() > MAX_CONTENT_CHARS,
    ensures
        send_outcome(slot, author, topic, content, seed, now) == Err::<(TweetView, Seq<u8>), ErrorCode>(
            ErrorCode::ContentTooLong,
        ),
{
}

/// After a post was created, its author can change it at the address that
/// the creation gave, with texts that keep to their limits. The change
/// keeps the author, the seed, the bump and the time of creation, stores
/// the new texts, and sets the time of change to the time of the call.
pub proof fn lemma_update_after_create(
    author: Seq<u8>,
    topic: Seq<char>,
    content: Seq<char>,
    seed: Seq<u8>,
    now: i64,
    new_topic: Seq<char>,
    new_content: Seq<char>,
    later: i64,
)
    requires
        send_outcome(None, author, topic, content, seed, now) is Ok,
        new_topic.len() <= MAX_TOPIC_CHARS,
        new_content.len() <= MAX_CONTENT_CHARS,
    ensures
        ({
            let (t, address) = send_outcome(None, author, topic, content, seed, now)->Ok_0;
            update_outcome(Some(t), author, address, new_topic, new_content, later) matches Ok(u)
                && {
                &&& u.author == t.author
                &&& u.unique_seed == t.unique_seed
                &&& u.bump == t.bump
                &&& u.created_timestamp == t.created_timestamp
                &&& u.updated_timestamp == later
                &&& u.topic == new_topic
                &&& u.content == new_content
                &&& later >= now ==> u.updated_timestamp >= t.updated_timestamp
                    && u.updated_timestamp >= u.created_timestamp
            }
        }),
{
    let (t, address) = send_outcome(None, author, topic, content, seed, now)->Ok_0;
    lemma_derived_address(author, seed, address, t.bump);
}

/// A change leaves the author, the seed, the bump and the time of creation
/// of any post as they were, and keeps the post within its limits. Where
/// the clock has not gone back, the time of change does not go back either
/// and stays at or after the time of creation.
pub proof fn lemma_update_keeps_identity(
    t: TweetView,
    caller: Seq<u8>,
    address: Seq<u8>,
    topic: Seq<char>,
    content: Seq<char>,
    now: i64,
)
    requires
        update_outcome(Some(t), caller, address, topic, content, now) is Ok,
    ensures
        ({
            let u = update_outcome(Some(t), caller, address, topic, content, now)->Ok_0;
            &&& u == updated(t, topic, content, now)
            &&& u.author == t.author
            &&& u.unique_seed == t.unique_seed
            &&& u.bump == t.bump
            &&& u.created_timestamp == t.created_timestamp
            &&& u.within_limits()
            &&& caller == t.author
            &&& address_confirmed(Some(t), caller, address)
            &&& (t.created_timestamp <= t.updated_timestamp && t.updated_timestamp <= now)
                ==> (u.created_timestamp <= u.updated_timestamp && t.updated_timestamp
                <= u.updated_timestamp)
        }),
{
}

/// Nobody but the author changes or removes a post: for any other caller
/// both operations are turned down as unauthorised.
pub proof fn lemma_stranger_refused(
    t: TweetView,
    caller: Seq<u8>,
    address: Seq<u8>,
    topic: Seq<char>,
    content: Seq<char>,
    now: i64,
)
    requires
        caller != t.author,
    ensures
        update_outcome(Some(t), caller, address, topic, content, now) == Err::<TweetView, ErrorCode>(
            ErrorCode::Unauthorized,
        ),
        delete_outcome(Some(t), caller, address) == Err::<(), ErrorCode>(ErrorCode::Unauthorized),
{
}

/// For a post that lies at the address that its own author, seed and bump
/// give, a change or a removal is turned down as unauthorised exactly when
/// the caller is not the author.
pub proof fn lemma_unauthorized_iff_stranger(
    t: TweetView,
    caller: Seq<u8>,
    address: Seq<u8>,
    topic: Seq<char>,
    content: Seq<char>,
    now: i64,
)
    requires
        tweet_address(t.author, t.unique_seed, t.bump) == Some(address),
    ensures
        caller != t.author <==> update_outcome(Some(t), caller, address, topic, content, now)
            == Err::<TweetView, ErrorCode>(ErrorCode::Unauthorized),
        caller != t.author <==> delete_outcome(Some(t), caller, address) == Err::<(), ErrorCode>(
            ErrorCode::Unauthorized,
        ),
        caller == t.author <==> delete_outcome(Some(t), caller, address) is Ok,
{
}

/// After a post was created and then removed by its author, the same author
/// and seed create a post again at the same address and under the same
/// bump. The new post holds the new texts and the new time of creation and
/// nothing of the old one.
pub proof fn lemma_recreate_after_delete(
    author: Seq<u8>,
    topic: Seq<char>,
    content: Seq<char>,
    seed: Seq<u8>,
    now: i64,
    new_topic: Seq<char>,
    new_content: Seq<char>,
    later: i64,
)
    requires
        send_outcome(None, author, topic, content, seed, now) is Ok,
        new_topic.len() <= MAX_TOPIC_CHARS,
        new_content.len() <= MAX_CONTENT_CHARS,
    ensures
        ({
            let (t, address) = send_outcome(None, author, topic, content, seed, now)->Ok_0;
            &&& delete_outcome(Some(t), author, address) is Ok
            &&& send_outcome(None, author, new_topic, new_content, seed, later) == Ok::<
                (TweetView, Seq<u8>),
                ErrorCode,
            >((created(author, new_topic, new_content, seed, t.bump, later), address))
        }),
{
    let (t, address) = send_outcome(None, author, topic, content, seed, now)->Ok_0;
    lemma_derived_address(author, seed, address, t.bump);
}

} // verus!
