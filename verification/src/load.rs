//! The decisions of the load tester, which floods a channel to exercise the
//! moderation: which message to send next, when to report progress, and how
//! long to back off after a failed send.

use vstd::prelude::*;
use crate::text::{count_matches, count_occurrences};

verus! {

/// The number of distinct messages the load tester cycles through.
pub const ATTACK_MESSAGE_COUNT: usize = 6;

/// Progress is reported after every this many messages sent.
pub const PROGRESS_EVERY: usize = 10;

/// The text that marks a failure as the platform's rate limit.
pub const RATE_LIMIT_STATUS: &'static str = "429";

/// How long to back off after being rate limited, in seconds.
pub const RATE_LIMIT_BACKOFF_SECS: u64 = 2;

/// How long to back off after any other failure, in seconds.
pub const ERROR_BACKOFF_SECS: u64 = 1;

/// How long to pause after every attempt, in milliseconds.
pub const SEND_PAUSE_MILLIS: u64 = 100;

/// The messages the load tester sends, in order.
pub open spec fn attack_messages() -> Seq<Seq<char>> {
    seq![
        "THIS IS A SPAM ATTACK!"@,
        "CURSE WORD DETECTED: [censored]"@,
        "Nuke attempt in progress..."@,
        "Rapid fire message 1"@,
        "Rapid fire message 2"@,
        "I am going to spam this channel until I get banned!"@,
    ]
}

/// The message to send after `sent` messages went out: the list is cycled.
pub fn attack_message(sent: usize) -> (r: &'static str)
    ensures
        r@ == attack_messages()[(sent % ATTACK_MESSAGE_COUNT) as int],
{
    let i = sent % ATTACK_MESSAGE_COUNT;
    if i == 0 {
        "THIS IS A SPAM ATTACK!"
    } else if i == 1 {
        "CURSE WORD DETECTED: [censored]"
    } else if i == 2 {
        "Nuke attempt in progress..."
    } else if i == 3 {
        "Rapid fire message 1"
    } else if i == 4 {
        "Rapid fire message 2"
    } else {
        "I am going to spam this channel until I get banned!"
    }
}

/// Whether progress is reported once `sent` messages went out.
pub fn progress_due(sent: usize) -> (r: bool)
    ensures
        r == (sent % PROGRESS_EVERY == 0),
{
    sent % PROGRESS_EVERY == 0
}

/// Whether a failure, as its message reads, is the platform's rate limit:
/// whether the message mentions status 429.
pub fn is_rate_limited(error_text: &str) -> (r: bool)
    ensures
        r == (count_matches(error_text@, RATE_LIMIT_STATUS@) > 0),
{
    proof {
        reveal_strlit("429");
    }
    count_occurrences(error_text, RATE_LIMIT_STATUS) > 0
}

/// How long to back off after a failed send, in seconds.
pub fn backoff_secs(rate_limited: bool) -> (r: u64)
    ensures
        r == if rate_limited { RATE_LIMIT_BACKOFF_SECS } else { ERROR_BACKOFF_SECS },
{
    if rate_limited {
        RATE_LIMIT_BACKOFF_SECS
    } else {
        ERROR_BACKOFF_SECS
    }
}

} // verus!
