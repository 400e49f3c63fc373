//! The tweet record and the one operation that creates it.

use anchor_lang::prelude::Pubkey;
use vstd::prelude::*;

use crate::error::ErrorCode;
use crate::layout::lemma_size_within_len;

verus! {

/// `anchor_lang::prelude::Pubkey` (Solana's `solana_pubkey::Pubkey`), the
/// 32-byte address of an account. It is declared so that an author's address
/// can be carried from the caller into the record; nothing is claimed of what
/// a value of it holds.
#[verifier::external_type_specification]
#[verifier::external_body]
pub struct ExPubkey(Pubkey);

/// Most characters that a topic may have.
pub const MAX_TOPIC_CHARS: usize = 50;

/// Most characters that a content may have.
pub const MAX_CONTENT_CHARS: usize = 280;

/// A posted message. It is built once, by [`send_tweet`], and no operation of
/// this library changes it afterwards.
#[derive(Debug, PartialEq, Eq)]
pub struct Tweet {
    /// Who posted it.
    pub author: Pubkey,
    /// When it was posted, in seconds since the Unix epoch.
    pub timestamp: i64,
    /// What it is about.
    pub topic: String,
    /// What it says.
    pub content: String,
}

impl Tweet {
    /// Topic and content are within their limits. A character is a Unicode
    /// scalar value, however many bytes its encoding takes.
    pub open spec fn within_limits(&self) -> bool {
        &&& self.topic@.len() <= MAX_TOPIC_CHARS
        &&& self.content@.len() <= MAX_CONTENT_CHARS
    }
}

impl Clone for Tweet {
    /// A copy that equals this tweet field by field.
    fn clone(&self) -> (copy: Self)
        ensures
            copy == *self,
    {
        Tweet {
            author: self.author,
            timestamp: self.timestamp,
            topic: self.topic.clone(),
            content: self.content.clone(),
        }
    }
}

/// Creates the tweet that `author` posts at time `now`.
///
/// The topic is checked first, then the content, and the first limit that is
/// exceeded decides the error. A tweet that passes holds the four values as
/// they were given: nothing is trimmed, normalised or cut. It is within its
/// limits and fits the slot of [`Tweet::LEN`] bytes that is reserved for it.
pub fn send_tweet(author: Pubkey, topic: String, content: String, now: i64) -> (result: Result<Tweet, ErrorCode>)
    ensures
        topic@.len() > MAX_TOPIC_CHARS
            ==> (result matches Err(ErrorCode::TopicTooLong)),
        topic@.len() <= MAX_TOPIC_CHARS && content@.len() > MAX_CONTENT_CHARS
            ==> (result matches Err(ErrorCode::ContentTooLong)),
        topic@.len() <= MAX_TOPIC_CHARS && content@.len() <= MAX_CONTENT_CHARS
            ==> (result matches Ok(tweet)
                && tweet == (Tweet { author, timestamp: now, topic, content })),
        result matches Ok(tweet) ==> tweet.within_limits() && tweet.size() <= Tweet::LEN,
{
    if topic.as_str().unicode_len() > MAX_TOPIC_CHARS {
        return Err(ErrorCode::TopicTooLong);
    }
    if content.as_str().unicode_len() > MAX_CONTENT_CHARS {
        return Err(ErrorCode::ContentTooLong);
    }
    let tweet = Tweet { author, timestamp: now, topic, content };
    proof {
        lemma_size_within_len(tweet);
    }
    Ok(tweet)
}

} // verus!
