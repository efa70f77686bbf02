use automod_bot::automod::ai::AiDecision;
use automod_bot::automod::AutomodEngine;
use automod_bot::events::{
    build_warning, on_ai_decision, on_kick_limit, on_message_limit, on_warning_count, start,
    timeout_deadline, timeout_end, AuditEntry, AuditKind, Effect, GatewayEvent, MessageInfo, Query,
};

fn engine() -> AutomodEngine {
    match AutomodEngine::new() {
        Ok(e) => e,
        Err(_) => panic!("rule patterns must compile"),
    }
}

fn message(content: &str, guild: Option<u64>) -> MessageInfo {
    MessageInfo { id: 900, channel_id: 77, guild_id: guild, author_id: 42, content: content.to_string() }
}

#[test]
fn a_message_is_first_counted() {
    let step = start(GatewayEvent::MessageCreate(message("hello", Some(1))));
    assert!(step.effects.is_empty());
    match step.next {
        Some(Query::MessageLimit { message, limit }) => {
            assert_eq!(message.id, 900);
            assert_eq!(limit.user_id, "42");
            assert_eq!(limit.action_type, "message");
            assert_eq!(limit.max_actions, 5);
            assert_eq!(limit.window_secs, 3);
        }
        _ => panic!("expected a message limit check"),
    }
}

#[test]
fn a_kick_is_counted_against_its_executor() {
    let entry = AuditEntry { kind: AuditKind::MemberKick, user_id: Some(11), guild_id: Some(5) };
    let step = start(GatewayEvent::AuditLogEntryCreate(entry));
    match step.next {
        Some(Query::KickLimit { guild_id, executor_id, limit }) => {
            assert_eq!((guild_id, executor_id), (5, 11));
            assert_eq!(limit.user_id, "11");
            assert_eq!(limit.action_type, "kick");
            assert_eq!(limit.max_actions, 2);
            assert_eq!(limit.window_secs, 60);
        }
        _ => panic!("expected a kick limit check"),
    }
}

#[test]
fn other_events_need_nothing() {
    let other = AuditEntry { kind: AuditKind::Other, user_id: Some(11), guild_id: Some(5) };
    let no_guild = AuditEntry { kind: AuditKind::MemberKick, user_id: Some(11), guild_id: None };
    for event in [
        GatewayEvent::Ready,
        GatewayEvent::ChannelDelete { channel_id: 3 },
        GatewayEvent::Other,
        GatewayEvent::AuditLogEntryCreate(other),
        GatewayEvent::AuditLogEntryCreate(no_guild),
    ] {
        let step = start(event);
        assert!(step.effects.is_empty());
        assert!(step.next.is_none());
    }
}

#[test]
fn spam_is_deleted_purged_and_timed_out() {
    let e = engine();
    let step = on_message_limit(&e, message("hello there everyone", Some(8)), false);
    assert!(step.next.is_none());
    assert_eq!(step.effects.len(), 3);
    assert!(matches!(step.effects[0], Effect::DeleteMessage { channel_id: 77, message_id: 900 }));
    assert!(matches!(step.effects[1], Effect::PurgeAuthor { channel_id: 77, author_id: 42 }));
    assert!(matches!(step.effects[2], Effect::TimeoutMember { guild_id: 8, user_id: 42 }));
    let direct = on_message_limit(&e, message("hello", None), false);
    assert_eq!(direct.effects.len(), 2);
}

#[test]
fn blocked_content_is_deleted() {
    let e = engine();
    let step = on_message_limit(&e, message("join discord.gg/abc", Some(8)), true);
    assert!(step.next.is_none());
    assert_eq!(step.effects.len(), 1);
    assert!(matches!(step.effects[0], Effect::DeleteMessage { channel_id: 77, message_id: 900 }));
}

#[test]
fn profanity_is_deleted_then_counted() {
    let e = engine();
    let step = on_message_limit(&e, message("oh shit", Some(8)), true);
    assert_eq!(step.effects.len(), 1);
    assert!(matches!(step.effects[0], Effect::DeleteMessage { channel_id: 77, message_id: 900 }));
    match step.next {
        Some(Query::WarningCount { message, user_id }) => {
            assert_eq!(user_id, "42");
            assert_eq!(message.content, "oh shit");
        }
        _ => panic!("expected a warning count"),
    }
}

#[test]
fn long_clean_messages_go_to_evaluation() {
    let e = engine();
    let step = on_message_limit(&e, message("hello there friends", Some(8)), true);
    assert_eq!(step.effects.len(), 1);
    match &step.effects[0] {
        Effect::EvaluateWithAi { channel_id, message_id, author_id, content } => {
            assert_eq!((*channel_id, *message_id, *author_id), (77, 900, 42));
            assert_eq!(content, "hello there friends");
        }
        _ => panic!("expected an evaluation"),
    }
    let short = on_message_limit(&e, message("0123456789", Some(8)), true);
    assert!(short.effects.is_empty());
    let multibyte = on_message_limit(&e, message("ééééé!", Some(8)), true);
    assert_eq!(multibyte.effects.len(), 1);
}

#[test]
fn warnings_then_timeout() {
    let step = on_warning_count(message("oh shit", Some(8)), Some(2));
    assert_eq!(step.effects.len(), 1);
    match &step.effects[0] {
        Effect::SendWarning { channel_id, content } => {
            assert_eq!(*channel_id, 77);
            assert_eq!(content, "Hey <@42>, please watch your language. Warning 2/5");
        }
        _ => panic!("expected a warning"),
    }
    let failed = on_warning_count(message("oh shit", Some(8)), None);
    match &failed.effects[0] {
        Effect::SendWarning { content, .. } => {
            assert_eq!(content, "Hey <@42>, please watch your language. Warning 0/5");
        }
        _ => panic!("expected a warning"),
    }
    let fifth = on_warning_count(message("oh shit", Some(8)), Some(5));
    assert_eq!(fifth.effects.len(), 1);
    assert!(matches!(fifth.effects[0], Effect::TimeoutMember { guild_id: 8, user_id: 42 }));
    let direct = on_warning_count(message("oh shit", None), Some(6));
    assert!(direct.effects.is_empty());
}

#[test]
fn warning_text_renders_counts() {
    assert_eq!(build_warning(123, 4), "Hey <@123>, please watch your language. Warning 4/5");
    assert_eq!(build_warning(1, -1), "Hey <@1>, please watch your language. Warning -1/5");
}

#[test]
fn kicks_over_the_limit_remove_and_ban() {
    let step = on_kick_limit(5, 11, Some(false));
    assert_eq!(step.effects.len(), 2);
    assert!(matches!(step.effects[0], Effect::RemoveMember { guild_id: 5, user_id: 11 }));
    assert!(matches!(step.effects[1], Effect::BanMember { guild_id: 5, user_id: 11 }));
    assert!(on_kick_limit(5, 11, Some(true)).effects.is_empty());
    assert!(on_kick_limit(5, 11, None).effects.is_empty());
}

#[test]
fn malicious_verdicts_delete_the_message() {
    let bad = AiDecision { is_malicious: true, reason: "phishing".to_string() };
    let step = on_ai_decision(77, 900, &bad);
    assert!(matches!(step.effects[0], Effect::DeleteMessage { channel_id: 77, message_id: 900 }));
    let good = AiDecision { is_malicious: false, reason: "fine".to_string() };
    assert!(on_ai_decision(77, 900, &good).effects.is_empty());
}

#[test]
fn timeouts_last_a_minute() {
    assert_eq!(timeout_deadline(1_700_000_000), 1_700_000_060);
    assert_eq!(timeout_deadline(0), 60);
    assert_eq!(timeout_deadline(u64::MAX), 59);
    assert_eq!(timeout_deadline(i64::MAX as u64), i64::MIN + 59);
}

#[test]
fn timeout_end_exists_for_representable_moments() {
    let end = timeout_end(1_700_000_000).expect("representable");
    assert_eq!(end.seconds(), 1_700_000_060);
    assert_eq!(end.into_timestamp().as_secs(), 1_700_000_060);
    assert_eq!(timeout_end(0).expect("representable").seconds(), 60);
    assert!(timeout_end(i64::MAX as u64).is_none());
}
