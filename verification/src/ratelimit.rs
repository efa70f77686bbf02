//! Counters for rate limits and warnings. The counters live in an outside
//! store. A rate-limit counter gets its expiry when it has none, that is at
//! the first action counted on it, so it starts again from zero one window
//! after that action: a fixed window. A warning counter's expiry is renewed
//! with every warning. This module names the counters and decides on their
//! values.

use vstd::prelude::*;

verus! {

/// How long a warning counter lives: a day.
pub const WARNING_WINDOW_SECS: i64 = 86400;

/// The prefix of warning counter keys.
pub const WARNING_KEY_PREFIX: &'static str = "warnings:";

/// The prefix of rate-limit counter keys.
pub const LIMIT_KEY_PREFIX: &'static str = "ratelimit:";

/// The separator between the action type and the user in a rate-limit key.
pub const KEY_SEPARATOR: &'static str = ":";

/// The store key of a user's warning counter.
pub open spec fn warning_key_spec(user_id: Seq<char>) -> Seq<char> {
    WARNING_KEY_PREFIX@ + user_id
}

/// The store key of a user's counter for one kind of action.
pub open spec fn rate_limit_key_spec(user_id: Seq<char>, action_type: Seq<char>) -> Seq<char> {
    LIMIT_KEY_PREFIX@ + action_type + KEY_SEPARATOR@ + user_id
}

/// Whether the action that brought its counter to `count` is allowed under
/// a limit of `max_actions`.
pub open spec fn allows(count: int, max_actions: int) -> bool {
    count <= max_actions
}

/// The store key of a user's warning counter.
pub fn warning_key(user_id: &str) -> (r: String)
    ensures
        r@ == warning_key_spec(user_id@),
{
    let mut s = String::new();
    s.append(WARNING_KEY_PREFIX);
    s.append(user_id);
    assert(s@ =~= warning_key_spec(user_id@));
    s
}

/// The store key of a user's counter for one kind of action.
pub fn rate_limit_key(user_id: &str, action_type: &str) -> (r: String)
    ensures
        r@ == rate_limit_key_spec(user_id@, action_type@),
{
    let mut s = String::new();
    s.append(LIMIT_KEY_PREFIX);
    s.append(action_type);
    s.append(KEY_SEPARATOR);
    s.append(user_id);
    assert(s@ =~= rate_limit_key_spec(user_id@, action_type@));
    s
}

/// The expiry handed to the store for a window of `window_secs` seconds,
/// converted to a signed count as `as i64` converts it.
pub fn expire_seconds(window_secs: u64) -> (r: i64)
    ensures
        r == window_secs as i64,
{
    window_secs as i64
}

/// Whether a rate-limit counter needs its expiry set, given the time to
/// live the store reports for it after counting an action: the store
/// reports a negative value for a counter without an expiry.
pub fn expiry_due(ttl_secs: i64) -> (r: bool)
    ensures
        r == (ttl_secs < 0),
{
    ttl_secs < 0
}

/// Whether an action is allowed once its counter, incremented for it, reads
/// `count`: allowed unless the count exceeds `max_actions`.
pub fn limit_allows(count: i64, max_actions: i64) -> (r: bool)
    ensures
        r == allows(count as int, max_actions as int),
{
    !(count > max_actions)
}

/// How many of the first `n` actions counted since the counter last started
/// from zero are allowed, the k-th action finding the counter at k.
pub open spec fn admitted(n: nat, max_actions: int) -> nat
    decreases n,
{
    if n == 0 {
        0
    } else {
        admitted((n - 1) as nat, max_actions) + if allows(n as int, max_actions) { 1nat } else { 0nat }
    }
}

/// Of `n` actions counted since the counter last started from zero, exactly
/// `max_actions` are allowed when there are more than that, and all of them
/// otherwise (none for a limit below one).
pub proof fn lemma_counter_admits_up_to_limit(n: nat, max_actions: int)
    ensures
        admitted(n, max_actions) == if max_actions <= 0 {
            0
        } else if n <= max_actions {
            n
        } else {
            max_actions as nat
        },
    decreases n,
{
    if n > 0 {
        lemma_counter_admits_up_to_limit((n - 1) as nat, max_actions);
    }
}

/// Once an action is refused, every later action counted before the counter
/// starts again from zero is refused too.
pub proof fn lemma_refusal_persists(count: int, later: int, max_actions: int)
    requires
        count <= later,
        !allows(count, max_actions),
    ensures
        !allows(later, max_actions),
{
}

} // verus!
