//! The first moderation layer: fast, deterministic checks on a message.

pub mod ai;
pub mod pattern;

use vstd::prelude::*;
use crate::text::{count_matches, count_occurrences, lemma_count_matches_counts_whole_matches, occurs_at};
use self::pattern::{compile, regex_compiles, regex_is_match, Pattern};

verus! {

/// Four or more consecutive combining marks ("Zalgo" text).
pub const ZALGO_PATTERN: &'static str = r"[\x{0300}-\x{036F}\x{1AB0}-\x{1AFF}\x{1DC0}-\x{1DFF}\x{20D0}-\x{20FF}\x{FE20}-\x{FE2F}]{4,}";

/// Invite links to other chat servers, in their common spellings.
pub const INVITE_PATTERN: &'static str = r"(?i)(discord\.(gg|io|me|li)|discordapp\.com/invite)/[a-zA-Z0-9]+";

/// A short list of profanities, matched as whole words in any letter case.
pub const BAD_WORDS_PATTERN: &'static str = r"(?i)\b(fuck|shit|bitch|asshole|cunt)\b";

/// The text that opens a user mention.
pub const MENTION_MARKER: &'static str = "<@";

/// A message with more mentions than this is blocked.
pub const MASS_MENTION_LIMIT: usize = 5;

/// What the fast path decides about a message.
pub enum AutomodAction {
    /// Delete the message; the reason names the rule that fired.
    Block(&'static str),
    /// Delete the message and warn its author.
    BadWord,
    /// No rule fired.
    Pass,
}

/// The mathematical form of an `AutomodAction`.
pub enum ActionView {
    Block(Seq<char>),
    BadWord,
    Pass,
}

impl View for AutomodAction {
    type V = ActionView;

    open spec fn view(&self) -> ActionView {
        match self {
            AutomodAction::Block(reason) => ActionView::Block(reason@),
            AutomodAction::BadWord => ActionView::BadWord,
            AutomodAction::Pass => ActionView::Pass,
        }
    }
}

/// The fast-path verdict, given which of the three expressions matched and
/// how many mentions the message holds. Earlier rules take precedence.
pub open spec fn fast_path_outcome(zalgo: bool, invite: bool, bad_word: bool, mentions: nat) -> ActionView {
    if zalgo {
        ActionView::Block("Zalgo"@)
    } else if invite {
        ActionView::Block("Invite Link"@)
    } else if bad_word {
        ActionView::BadWord
    } else if mentions > MASS_MENTION_LIMIT {
        ActionView::Block("Mass Mentions"@)
    } else {
        ActionView::Pass
    }
}

/// The fast-path verdict on a message text.
pub open spec fn fast_path_verdict(content: Seq<char>) -> ActionView {
    fast_path_outcome(
        regex_is_match(ZALGO_PATTERN@, content),
        regex_is_match(INVITE_PATTERN@, content),
        regex_is_match(BAD_WORDS_PATTERN@, content),
        count_matches(content, MENTION_MARKER@),
    )
}

/// Why the engine could not be built.
pub enum AutomodError {
    /// One of the rule expressions does not compile.
    InvalidPattern,
}

/// The fast-path rule engine, holding its compiled expressions.
pub struct AutomodEngine {
    zalgo: Pattern,
    invite: Pattern,
    bad_words: Pattern,
}

impl AutomodEngine {
    #[verifier::type_invariant]
    spec fn holds_rule_patterns(self) -> bool {
        &&& self.zalgo.source() == ZALGO_PATTERN@
        &&& self.invite.source() == INVITE_PATTERN@
        &&& self.bad_words.source() == BAD_WORDS_PATTERN@
    }

    /// Compiles the rule expressions.
    pub fn new() -> (r: Result<AutomodEngine, AutomodError>)
        ensures
            r is Ok <==> (regex_compiles(ZALGO_PATTERN@) && regex_compiles(INVITE_PATTERN@)
                && regex_compiles(BAD_WORDS_PATTERN@)),
    {
        let zalgo = match compile(ZALGO_PATTERN) {
            Ok(p) => p,
            Err(_) => return Err(AutomodError::InvalidPattern),
        };
        let invite = match compile(INVITE_PATTERN) {
            Ok(p) => p,
            Err(_) => return Err(AutomodError::InvalidPattern),
        };
        let bad_words = match compile(BAD_WORDS_PATTERN) {
            Ok(p) => p,
            Err(_) => return Err(AutomodError::InvalidPattern),
        };
        Ok(AutomodEngine { zalgo, invite, bad_words })
    }

    /// Layer 1: the fast deterministic checks. Zalgo text and invite links
    /// are blocked, profanity is reported as `BadWord`, and a message with
    /// more than five mentions is blocked, in that order of precedence.
    pub fn check_fast_path(&self, content: &str) -> (r: AutomodAction)
        ensures
            r@ == fast_path_verdict(content@),
    {
        proof {
            use_type_invariant(self);
        }
        let zalgo = self.zalgo.is_match(content);
        let invite = self.invite.is_match(content);
        let bad_word = self.bad_words.is_match(content);
        decide_fast_path(zalgo, invite, bad_word, content)
    }
}

/// The fast-path verdict once the three expressions have been tried on the
/// message: `zalgo`, `invite` and `bad_word` say which of them matched.
pub fn decide_fast_path(zalgo: bool, invite: bool, bad_word: bool, content: &str) -> (r: AutomodAction)
    ensures
        r@ == fast_path_outcome(zalgo, invite, bad_word, count_matches(content@, MENTION_MARKER@)),
{
    proof {
        reveal_strlit("Zalgo");
        reveal_strlit("Invite Link");
        reveal_strlit("Mass Mentions");
        reveal_strlit("<@");
    }
    if zalgo {
        return AutomodAction::Block("Zalgo");
    }
    if invite {
        return AutomodAction::Block("Invite Link");
    }
    if bad_word {
        return AutomodAction::BadWord;
    }
    let mention_count = count_occurrences(content, MENTION_MARKER);
    if mention_count > MASS_MENTION_LIMIT {
        return AutomodAction::Block("Mass Mentions");
    }
    AutomodAction::Pass
}


/// Only real mentions count toward the mass-mention rule: a message in
/// which `<@` occurs nowhere has no mentions, and when none of the three
/// expressions matches it passes; a message blocked for mass mentions holds
/// `<@` somewhere and has room for more than five of them.
pub proof fn lemma_mass_mentions_need_mentions(content: Seq<char>)
    ensures
        (forall|i: int| !#[trigger] occurs_at(content, i, MENTION_MARKER@)) ==> count_matches(
            content,
            MENTION_MARKER@,
        ) == 0 && fast_path_outcome(false, false, false, count_matches(content, MENTION_MARKER@))
            == ActionView::Pass,
        fast_path_outcome(false, false, false, count_matches(content, MENTION_MARKER@))
            == ActionView::Block("Mass Mentions"@) ==> (exists|i: int| #[trigger] occurs_at(
            content,
            i,
            MENTION_MARKER@,
        )) && content.len() >= 2 * (MASS_MENTION_LIMIT + 1),
{
    reveal_strlit("<@");
    reveal_strlit("Mass Mentions");
    lemma_count_matches_counts_whole_matches(content, MENTION_MARKER@);
}

} // verus!
