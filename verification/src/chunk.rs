//! Splitting a chat message into ordered chunks.
//!
//! The platform caps a chat message at a fixed number of characters.
//! A longer message is split into maximal chunks that are sent as
//! separate, strictly ordered chat operations. Length and slicing are
//! both measured in characters, so a multi-byte character can never
//! straddle a chunk boundary.

use vstd::prelude::*;

verus! {

/// The longest chat message the platform accepts, in characters.
pub const CHAT_MESSAGE_MAX_LEN: usize = 500;

/// How many chunks a message of `len` characters splits into: none for
/// an empty message, and otherwise one chunk per started block of
/// [`CHAT_MESSAGE_MAX_LEN`] characters.
pub open spec fn spec_chunk_count(len: nat) -> nat {
    (((len + CHAT_MESSAGE_MAX_LEN) - 1) / (CHAT_MESSAGE_MAX_LEN as int)) as nat
}

/// The `i`-th chunk of `s`: the characters from position
/// `CHAT_MESSAGE_MAX_LEN * i` up to the end of the block or of the
/// message, whichever comes first.
pub open spec fn spec_chunk(s: Seq<char>, i: int) -> Seq<char> {
    let start = CHAT_MESSAGE_MAX_LEN * i;
    let block_end = CHAT_MESSAGE_MAX_LEN * (i + 1);
    s.subrange(start, if block_end <= s.len() { block_end } else { s.len() as int })
}

/// Splits a message into its ordered chunks.
///
/// Every chunk but the last holds exactly [`CHAT_MESSAGE_MAX_LEN`]
/// characters; the last holds the remainder; an empty message yields no
/// chunk at all. Concatenated in order, the chunks restore the message.
pub fn chunk_message(message: &str) -> (chunks: Vec<String>)
    ensures
        chunks@.len() == spec_chunk_count(message@.len()),
        forall|i: int| 0 <= i < chunks@.len() ==> chunks@[i]@ == spec_chunk(message@, i),
{
    let len = message.unicode_len();
    let mut chunks: Vec<String> = Vec::new();
    let mut start: usize = 0;
    while start < len
        invariant
            len == message@.len(),
            start == if CHAT_MESSAGE_MAX_LEN * chunks@.len() <= len {
                (CHAT_MESSAGE_MAX_LEN * chunks@.len()) as int
            } else {
                len as int
            },
            CHAT_MESSAGE_MAX_LEN * chunks@.len() < len + CHAT_MESSAGE_MAX_LEN,
            forall|i: int| 0 <= i < chunks@.len() ==> chunks@[i]@ == spec_chunk(message@, i),
        decreases len - start,
    {
        let remaining = len - start;
        let take = if remaining < CHAT_MESSAGE_MAX_LEN {
            remaining
        } else {
            CHAT_MESSAGE_MAX_LEN
        };
        let end = start + take;
        let piece = message.substring_char(start, end);
        chunks.push(piece.to_owned());
        start = end;
    }
    chunks
}

} // verus!
