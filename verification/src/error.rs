//! The ways in which creating a tweet can be refused.

use vstd::prelude::*;

verus! {

/// Why a tweet was refused. Both are detected before anything is built, and
/// neither goes away unless the caller changes the input.
#[derive(Debug, Clone, Copy, PartialEq, Eq, Structural)]
pub enum ErrorCode {
    /// The topic has more than fifty characters.
    TopicTooLong,
    /// The content has more than two hundred and eighty characters.
    ContentTooLong,
}

} // verus!
