//! Short text posts kept in fixed-size slots.
//!
//! A post lives in a slot whose address is derived from its author and a
//! seed chosen by the author. The slot is sized once, for the longest post
//! that the limits allow, and only the author may change or remove the post.

pub mod address;
pub mod error;
pub mod guarantees;
pub mod layout;
pub mod lifecycle;
pub mod record;

pub use address::{find_address, same_bytes, verify_address, PROGRAM_ID, TWEET_TAG};
pub use error::ErrorCode;
pub use layout::Schema;
pub use lifecycle::{
    check_lengths, confirm_address, create_record, delete_record, delete_tweet, send_tweet,
    update_record, update_tweet, DeleteTweet, SendTweet, UpdateTweet,
};
pub use record::{Tweet, TweetView};
