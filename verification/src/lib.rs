//! A minimal message-posting ledger: one operation that validates a topic and
//! a content string and builds the immutable, fixed-capacity record for them.
//!
//! [`send_tweet`] decides whether a tweet may be created and what it holds;
//! [`layout`] derives the size of the slot that every tweet is stored in and
//! proves that no tweet can outgrow it. Who the author is, what time it is and
//! where the record is kept are the caller's business.

pub mod error;
pub mod layout;
pub mod tweet;

pub use error::ErrorCode;
pub use tweet::{send_tweet, Tweet};
