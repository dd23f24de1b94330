//! The fixed sizes that records are allocated with.
//!
//! A record is allocated once, at its largest possible size, so that no
//! update ever needs more room: a tag, each fixed-width field, and for each
//! text field a length prefix plus four bytes for each allowed character.
use vstd::prelude::*;

verus! {

/// The tag that starts every stored record.
pub const DISCRIMINATOR_LENGTH: usize = 8;

/// The width of an identity key.
pub const PUBLIC_KEY_LENGTH: usize = 32;

/// The width of a timestamp.
pub const TIMESTAMP_LENGTH: usize = 8;

/// The prefix that stores the byte length of a text field.
pub const STRING_LENGTH_PREFIX: usize = 4;

/// The most characters a topic may hold.
pub const MAX_TOPIC_CHARS: usize = 50;

/// The most characters a content may hold.
pub const MAX_CONTENT_CHARS: usize = 280;

/// The most bytes that one character takes in UTF-8.
pub const MAX_CHAR_BYTES: usize = 4;

/// The bytes reserved for a topic.
pub const MAX_TOPIC_LENGTH: usize = MAX_TOPIC_CHARS * MAX_CHAR_BYTES;

/// The bytes reserved for a content.
pub const MAX_CONTENT_LENGTH: usize = MAX_CONTENT_CHARS * MAX_CHAR_BYTES;

/// The bytes allocated for a post.
pub const TWEET_LEN: usize = DISCRIMINATOR_LENGTH + PUBLIC_KEY_LENGTH + TIMESTAMP_LENGTH
    + STRING_LENGTH_PREFIX + MAX_TOPIC_LENGTH + STRING_LENGTH_PREFIX + MAX_CONTENT_LENGTH;

/// The bytes allocated for a profile: its tag and two keys.
pub const USER_LEN: usize = DISCRIMINATOR_LENGTH + PUBLIC_KEY_LENGTH + PUBLIC_KEY_LENGTH;

/// The number of bytes that character `c` takes in UTF-8.
pub open spec fn char_utf8_len(c: char) -> nat {
    if (c as u32) < 0x80 {
        1
    } else if (c as u32) < 0x800 {
        2
    } else if (c as u32) < 0x10000 {
        3
    } else {
        4
    }
}

/// The number of bytes that text `s` takes in UTF-8.
pub open spec fn utf8_len(s: Seq<char>) -> nat
    decreases s.len(),
{
    if s.len() == 0 {
        0
    } else {
        utf8_len(s.drop_last()) + char_utf8_len(s.last())
    }
}

/// The bytes that a post with this topic and content takes when stored: the
/// tag, the author, the timestamp, and each text with its length prefix.
pub open spec fn tweet_stored_len(topic: Seq<char>, content: Seq<char>) -> nat {
    (DISCRIMINATOR_LENGTH + PUBLIC_KEY_LENGTH + TIMESTAMP_LENGTH + STRING_LENGTH_PREFIX
        + STRING_LENGTH_PREFIX) as nat + utf8_len(topic) + utf8_len(content)
}

/// Text never takes more than four bytes per character.
pub proof fn lemma_utf8_len_bound(s: Seq<char>)
    ensures
        utf8_len(s) <= MAX_CHAR_BYTES * s.len(),
    decreases s.len(),
{
    if s.len() > 0 {
        lemma_utf8_len_bound(s.drop_last());
    }
}

/// A post whose texts are within their limits fits in the space allocated
/// for it, whatever it is later updated to: no post ever needs more room.
pub proof fn lemma_tweet_fits(topic: Seq<char>, content: Seq<char>)
    requires
        topic.len() <= MAX_TOPIC_CHARS,
        content.len() <= MAX_CONTENT_CHARS,
    ensures
        tweet_stored_len(topic, content) <= TWEET_LEN,
{
    lemma_utf8_len_bound(topic);
    lemma_utf8_len_bound(content);
}

/// The space to allocate for a post.
pub fn tweet_space() -> (r: usize)
    ensures
        r == TWEET_LEN,
        r == 1376,
{
    TWEET_LEN
}

/// The space to allocate for a profile.
pub fn user_space() -> (r: usize)
    ensures
        r == USER_LEN,
        r == 72,
{
    USER_LEN
}

} // verus!
