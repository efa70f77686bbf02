use automod_bot::ratelimit::{expire_seconds, expiry_due, limit_allows, rate_limit_key, warning_key, WARNING_WINDOW_SECS};

#[test]
fn counter_keys() {
    assert_eq!(warning_key("42"), "warnings:42");
    assert_eq!(rate_limit_key("42", "message"), "ratelimit:message:42");
    assert_eq!(rate_limit_key("7", "kick"), "ratelimit:kick:7");
}

#[test]
fn counts_up_to_the_limit_are_allowed() {
    assert!(limit_allows(1, 5));
    assert!(limit_allows(5, 5));
    assert!(!limit_allows(6, 5));
    assert!(!limit_allows(3, 2));
}

#[test]
fn a_window_admits_exactly_the_limit() {
    let allowed = (1..=9i64).filter(|&count| limit_allows(count, 5)).count();
    assert_eq!(allowed, 5);
    let kicks = (1..=4i64).filter(|&count| limit_allows(count, 2)).count();
    assert_eq!(kicks, 2);
}

#[test]
fn expiry_converts_like_as() {
    assert_eq!(expire_seconds(3), 3);
    assert_eq!(expire_seconds(60), 60);
    assert_eq!(expire_seconds(u64::MAX), -1);
    assert_eq!(WARNING_WINDOW_SECS, 86400);
}

#[test]
fn expiry_is_set_only_on_counters_without_one() {
    assert!(expiry_due(-1));
    assert!(expiry_due(-2));
    assert!(!expiry_due(0));
    assert!(!expiry_due(3));
}
