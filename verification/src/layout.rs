//! The stored form of a tweet and the capacity reserved for it.
//!
//! A tweet is stored as an eight-byte tag that names its schema, the author's
//! address, the timestamp, and the two strings, each as a four-byte length
//! followed by its UTF-8 encoding. Every tweet gets a slot of the same size,
//! [`Tweet::LEN`], which is reserved for the case that each character of a
//! string of maximal length takes four bytes. The strings are limited by
//! their number of characters, so the proofs below are what shows that no
//! choice of characters can overflow the slot.

use vstd::prelude::*;
use vstd::utf8::encode_utf8;

use crate::tweet::{Tweet, MAX_CONTENT_CHARS, MAX_TOPIC_CHARS};

verus! {

/// Bytes of the tag that names the schema of a stored record.
pub const DISCRIMINATOR_LENGTH: usize = 8;

/// Bytes of an author's address.
pub const PUBLIC_KEY_LENGTH: usize = 32;

/// Bytes of a timestamp.
pub const TIMESTAMP_LENGTH: usize = 8;

/// Bytes of the length that precedes a stored string.
pub const STRING_LENGTH_PREFIX: usize = 4;

/// Most bytes that UTF-8 takes for one character.
pub const MAX_BYTES_PER_CHAR: usize = 4;

/// Bytes reserved for the text of a topic.
pub const MAX_TOPIC_LENGTH: usize = MAX_TOPIC_CHARS * MAX_BYTES_PER_CHAR;

/// Bytes reserved for the text of a content.
pub const MAX_CONTENT_LENGTH: usize = MAX_CONTENT_CHARS * MAX_BYTES_PER_CHAR;

/// Bytes that a stored string takes: its length prefix and its UTF-8 encoding.
pub open spec fn string_size(s: Seq<char>) -> nat {
    STRING_LENGTH_PREFIX as nat + encode_utf8(s).len()
}

/// Bytes reserved for a string that may have up to `max_chars` characters.
pub open spec fn max_string_size(max_chars: nat) -> nat {
    STRING_LENGTH_PREFIX as nat + MAX_BYTES_PER_CHAR as nat * max_chars
}

/// Bytes reserved for a record whose topic may have up to `topic_chars`
/// characters and whose content up to `content_chars`.
pub open spec fn max_size(topic_chars: nat, content_chars: nat) -> nat {
    DISCRIMINATOR_LENGTH as nat + PUBLIC_KEY_LENGTH as nat + TIMESTAMP_LENGTH as nat
        + max_string_size(topic_chars) + max_string_size(content_chars)
}

impl Tweet {
    /// Bytes of the slot that holds a tweet, whatever its strings are.
    pub const LEN: usize = DISCRIMINATOR_LENGTH + PUBLIC_KEY_LENGTH + TIMESTAMP_LENGTH
        + STRING_LENGTH_PREFIX + MAX_TOPIC_LENGTH + STRING_LENGTH_PREFIX + MAX_CONTENT_LENGTH;

    /// Bytes that this tweet takes of its slot.
    pub open spec fn size(&self) -> nat {
        DISCRIMINATOR_LENGTH as nat + PUBLIC_KEY_LENGTH as nat + TIMESTAMP_LENGTH as nat
            + string_size(self.topic@) + string_size(self.content@)
    }
}

/// The slot is what the limits of fifty and two hundred and eighty characters
/// ask for, part by part: 1376 bytes.
pub proof fn lemma_len_is_max_size()
    ensures
        Tweet::LEN == max_size(MAX_TOPIC_CHARS as nat, MAX_CONTENT_CHARS as nat),
        Tweet::LEN == 8 + 32 + 8 + (4 + 200) + (4 + 1120),
        Tweet::LEN == 1376,
{
}

/// UTF-8 takes at least one byte and at most four for each character.
pub proof fn lemma_encoded_length(s: Seq<char>)
    ensures
        s.len() <= encode_utf8(s).len() <= MAX_BYTES_PER_CHAR * s.len(),
    decreases s.len(),
{
    if s.len() > 0 {
        lemma_encoded_length(s.drop_first());
    }
}

/// A string within its limit of characters fits the region reserved for that
/// limit, whichever characters it holds.
pub proof fn lemma_string_fits(s: Seq<char>, max_chars: nat)
    requires
        s.len() <= max_chars,
    ensures
        string_size(s) <= max_string_size(max_chars),
{
    lemma_encoded_length(s);
}

/// A tweet within its limits never takes more than its slot: the topic stays
/// within the 204 bytes reserved for it, the content within its 1124, and so
/// the whole within [`Tweet::LEN`].
pub proof fn lemma_size_within_len(tweet: Tweet)
    requires
        tweet.within_limits(),
    ensures
        string_size(tweet.topic@) <= max_string_size(MAX_TOPIC_CHARS as nat) == 204,
        string_size(tweet.content@) <= max_string_size(MAX_CONTENT_CHARS as nat) == 1124,
        tweet.size() <= Tweet::LEN,
{
    lemma_string_fits(tweet.topic@, MAX_TOPIC_CHARS as nat);
    lemma_string_fits(tweet.content@, MAX_CONTENT_CHARS as nat);
}

} // verus!
