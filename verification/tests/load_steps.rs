use automod_bot::load::{attack_message, backoff_secs, is_rate_limited, progress_due};

#[test]
fn messages_cycle_through_the_list() {
    assert_eq!(attack_message(0), "THIS IS A SPAM ATTACK!");
    assert_eq!(attack_message(1), "CURSE WORD DETECTED: [censored]");
    assert_eq!(attack_message(5), "I am going to spam this channel until I get banned!");
    assert_eq!(attack_message(6), "THIS IS A SPAM ATTACK!");
    assert_eq!(attack_message(10), "Rapid fire message 2");
}

#[test]
fn progress_every_ten_messages() {
    assert!(progress_due(10));
    assert!(progress_due(20));
    assert!(!progress_due(11));
}

#[test]
fn rate_limits_back_off_longer() {
    assert!(is_rate_limited("Response error: status code 429, error: ..."));
    assert!(!is_rate_limited("status code 500"));
    assert_eq!(backoff_secs(true), 2);
    assert_eq!(backoff_secs(false), 1);
}
