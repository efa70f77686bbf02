use automod_bot::automod::{decide_fast_path, AutomodAction, AutomodEngine};

fn engine() -> AutomodEngine {
    match AutomodEngine::new() {
        Ok(e) => e,
        Err(_) => panic!("rule patterns must compile"),
    }
}

fn reason(action: &AutomodAction) -> Option<&'static str> {
    match action {
        AutomodAction::Block(r) => Some(r),
        _ => None,
    }
}

#[test]
fn engine_compiles_rule_patterns() {
    assert!(AutomodEngine::new().is_ok());
}

#[test]
fn zalgo_text_is_blocked() {
    let e = engine();
    let action = e.check_fast_path("he\u{0300}\u{0301}\u{0302}\u{0303}llo");
    assert_eq!(reason(&action), Some("Zalgo"));
}

#[test]
fn three_combining_marks_are_not_zalgo() {
    let e = engine();
    let action = e.check_fast_path("he\u{0300}\u{0301}\u{0302}llo");
    assert!(matches!(action, AutomodAction::Pass));
}

#[test]
fn invite_links_are_blocked() {
    let e = engine();
    assert_eq!(reason(&e.check_fast_path("join discord.gg/abc123 now")), Some("Invite Link"));
    assert_eq!(reason(&e.check_fast_path("DISCORDAPP.COM/invite/XyZ9")), Some("Invite Link"));
    assert_eq!(reason(&e.check_fast_path("see discord.io/x")), Some("Invite Link"));
}

#[test]
fn invite_without_code_passes() {
    let e = engine();
    assert!(matches!(e.check_fast_path("discord.gg/ is a domain"), AutomodAction::Pass));
}

#[test]
fn bad_words_are_reported() {
    let e = engine();
    assert!(matches!(e.check_fast_path("well this is SHIT"), AutomodAction::BadWord));
    assert!(matches!(e.check_fast_path("fuck"), AutomodAction::BadWord));
}

#[test]
fn bad_words_match_whole_words_only() {
    let e = engine();
    assert!(matches!(e.check_fast_path("shitake mushrooms"), AutomodAction::Pass));
    assert!(matches!(e.check_fast_path("Scunthorpe"), AutomodAction::Pass));
}

#[test]
fn mass_mentions_are_blocked() {
    let e = engine();
    let six = "<@1> <@2> <@3> <@4> <@5> <@6>";
    assert_eq!(reason(&e.check_fast_path(six)), Some("Mass Mentions"));
    let five = "<@1> <@2> <@3> <@4> <@5>";
    assert!(matches!(e.check_fast_path(five), AutomodAction::Pass));
}

#[test]
fn earlier_rules_take_precedence() {
    let e = engine();
    let both = "discord.gg/abc x\u{0300}\u{0301}\u{0302}\u{0303} shit";
    assert_eq!(reason(&e.check_fast_path(both)), Some("Zalgo"));
    let invite_and_word = "shit discord.gg/abc";
    assert_eq!(reason(&e.check_fast_path(invite_and_word)), Some("Invite Link"));
    let word_and_mentions = "shit <@1><@2><@3><@4><@5><@6>";
    assert!(matches!(e.check_fast_path(word_and_mentions), AutomodAction::BadWord));
}

#[test]
fn plain_text_passes() {
    let e = engine();
    assert!(matches!(e.check_fast_path("hello there, how are you?"), AutomodAction::Pass));
    assert!(matches!(e.check_fast_path(""), AutomodAction::Pass));
}

#[test]
fn decision_from_match_results() {
    assert_eq!(reason(&decide_fast_path(true, true, true, "")), Some("Zalgo"));
    assert_eq!(reason(&decide_fast_path(false, true, true, "")), Some("Invite Link"));
    assert!(matches!(decide_fast_path(false, false, true, "<@<@<@<@<@<@"), AutomodAction::BadWord));
    assert_eq!(reason(&decide_fast_path(false, false, false, "<@<@<@<@<@<@")), Some("Mass Mentions"));
    assert!(matches!(decide_fast_path(false, false, false, "<@<@<@<@<@"), AutomodAction::Pass));
}
