//! The decisions taken for each gateway event. Handling an event alternates
//! between asking the counter store and deciding; the decisions stand here
//! as steps from what is known to the effects to carry out and, where the
//! handler must hear from the store first, the question to ask it.

pub mod purge;

use vstd::prelude::*;
use vstd::utf8::encode_utf8;
use crate::automod::{ActionView, AutomodAction, AutomodEngine, fast_path_verdict};
use crate::automod::ai::AiDecision;
use crate::text::{decimal, decimal_i64, decimal_u64, signed_decimal};

verus! {

/// The action type under which sent messages are counted.
pub const MESSAGE_ACTION: &'static str = "message";

/// At most this many messages are allowed on one message counter.
pub const MESSAGE_LIMIT: i64 = 5;

/// The message counter expires after this many seconds without a message.
pub const MESSAGE_WINDOW_SECS: u64 = 3;

/// The action type under which member kicks are counted.
pub const KICK_ACTION: &'static str = "kick";

/// At most this many kicks are allowed on one kick counter.
pub const KICK_LIMIT: i64 = 2;

/// The kick counter expires after this many seconds without a kick.
pub const KICK_WINDOW_SECS: u64 = 60;

/// From this many warnings on, a member is timed out instead of warned.
pub const WARNING_TIMEOUT_THRESHOLD: i64 = 5;

/// How long a timeout lasts.
pub const TIMEOUT_SECS: u64 = 60;

/// How long a warning message stays before it is deleted.
pub const WARNING_LIFETIME_SECS: u64 = 5;

/// Messages longer than this many bytes go to the language model.
pub const AI_EVALUATION_MIN_BYTES: usize = 10;

/// A message as the handler sees it.
pub struct MessageInfo {
    pub id: u64,
    pub channel_id: u64,
    pub guild_id: Option<u64>,
    pub author_id: u64,
    pub content: String,
}

pub struct MessageView {
    pub id: u64,
    pub channel_id: u64,
    pub guild_id: Option<u64>,
    pub author_id: u64,
    pub content: Seq<char>,
}

impl View for MessageInfo {
    type V = MessageView;

    open spec fn view(&self) -> MessageView {
        MessageView {
            id: self.id,
            channel_id: self.channel_id,
            guild_id: self.guild_id,
            author_id: self.author_id,
            content: self.content@,
        }
    }
}

/// The kind of an audit log entry, as far as the handler tells kinds apart.
pub enum AuditKind {
    MemberKick,
    Other,
}

/// A new audit log entry: what happened, who did it, and where.
pub struct AuditEntry {
    pub kind: AuditKind,
    pub user_id: Option<u64>,
    pub guild_id: Option<u64>,
}

/// The gateway events the handler acts on.
pub enum GatewayEvent {
    Ready,
    MessageCreate(MessageInfo),
    AuditLogEntryCreate(AuditEntry),
    ChannelDelete { channel_id: u64 },
    Other,
}

/// Something the handler wants done on the platform.
pub enum Effect {
    DeleteMessage { channel_id: u64, message_id: u64 },
    /// Scan the channel's recent history and delete the author's messages.
    PurgeAuthor { channel_id: u64, author_id: u64 },
    /// Time the member out for `TIMEOUT_SECS`.
    TimeoutMember { guild_id: u64, user_id: u64 },
    /// Post a warning, deleted again after `WARNING_LIFETIME_SECS`.
    SendWarning { channel_id: u64, content: String },
    /// Have the language model judge the message in the background.
    EvaluateWithAi { channel_id: u64, message_id: u64, author_id: u64, content: String },
    RemoveMember { guild_id: u64, user_id: u64 },
    BanMember { guild_id: u64, user_id: u64 },
}

pub enum EffectView {
    DeleteMessage { channel_id: u64, message_id: u64 },
    PurgeAuthor { channel_id: u64, author_id: u64 },
    TimeoutMember { guild_id: u64, user_id: u64 },
    SendWarning { channel_id: u64, content: Seq<char> },
    EvaluateWithAi { channel_id: u64, message_id: u64, author_id: u64, content: Seq<char> },
    RemoveMember { guild_id: u64, user_id: u64 },
    BanMember { guild_id: u64, user_id: u64 },
}

impl View for Effect {
    type V = EffectView;

    open spec fn view(&self) -> EffectView {
        match self {
            Effect::DeleteMessage { channel_id, message_id } => EffectView::DeleteMessage {
                channel_id: *channel_id,
                message_id: *message_id,
            },
            Effect::PurgeAuthor { channel_id, author_id } => EffectView::PurgeAuthor {
                channel_id: *channel_id,
                author_id: *author_id,
            },
            Effect::TimeoutMember { guild_id, user_id } => EffectView::TimeoutMember {
                guild_id: *guild_id,
                user_id: *user_id,
            },
            Effect::SendWarning { channel_id, content } => EffectView::SendWarning {
                channel_id: *channel_id,
                content: content@,
            },
            Effect::EvaluateWithAi { channel_id, message_id, author_id, content } => EffectView::EvaluateWithAi {
                channel_id: *channel_id,
                message_id: *message_id,
                author_id: *author_id,
                content: content@,
            },
            Effect::RemoveMember { guild_id, user_id } => EffectView::RemoveMember {
                guild_id: *guild_id,
                user_id: *user_id,
            },
            Effect::BanMember { guild_id, user_id } => EffectView::BanMember {
                guild_id: *guild_id,
                user_id: *user_id,
            },
        }
    }
}

/// A rate-limit check to run against the counter store.
pub struct LimitCheck {
    pub user_id: String,
    pub action_type: String,
    pub max_actions: i64,
    pub window_secs: u64,
}

pub struct LimitCheckView {
    pub user_id: Seq<char>,
    pub action_type: Seq<char>,
    pub max_actions: i64,
    pub window_secs: u64,
}

impl View for LimitCheck {
    type V = LimitCheckView;

    open spec fn view(&self) -> LimitCheckView {
        LimitCheckView {
            user_id: self.user_id@,
            action_type: self.action_type@,
            max_actions: self.max_actions,
            window_secs: self.window_secs,
        }
    }
}

/// A question for the counter store, with what the handler needs to go on
/// once it has the answer.
pub enum Query {
    /// Count the message against its author's limit; answer with
    /// `on_message_limit`.
    MessageLimit { message: MessageInfo, limit: LimitCheck },
    /// Count a warning for the author; answer with `on_warning_count`.
    WarningCount { message: MessageInfo, user_id: String },
    /// Count the kick against the executor's limit; answer with
    /// `on_kick_limit`.
    KickLimit { guild_id: u64, executor_id: u64, limit: LimitCheck },
}

pub enum QueryView {
    MessageLimit { message: MessageView, limit: LimitCheckView },
    WarningCount { message: MessageView, user_id: Seq<char> },
    KickLimit { guild_id: u64, executor_id: u64, limit: LimitCheckView },
}

impl View for Query {
    type V = QueryView;

    open spec fn view(&self) -> QueryView {
        match self {
            Query::MessageLimit { message, limit } => QueryView::MessageLimit {
                message: message@,
                limit: limit@,
            },
            Query::WarningCount { message, user_id } => QueryView::WarningCount {
                message: message@,
                user_id: user_id@,
            },
            Query::KickLimit { guild_id, executor_id, limit } => QueryView::KickLimit {
                guild_id: *guild_id,
                executor_id: *executor_id,
                limit: limit@,
            },
        }
    }
}

/// One step of event handling: the effects to carry out, in order, and the
/// question to ask next, if the handler is not done.
pub struct Step {
    pub effects: Vec<Effect>,
    pub next: Option<Query>,
}

pub struct StepView {
    pub effects: Seq<EffectView>,
    pub next: Option<QueryView>,
}

impl View for Step {
    type V = StepView;

    open spec fn view(&self) -> StepView {
        StepView {
            effects: self.effects@.map_values(|e: Effect| e@),
            next: match self.next {
                Some(q) => Some(q@),
                None => None,
            },
        }
    }
}

pub open spec fn finished(effects: Seq<EffectView>) -> StepView {
    StepView { effects, next: None }
}

pub open spec fn limit_check_spec(user_id: u64, action_type: Seq<char>, max_actions: i64, window_secs: u64) -> LimitCheckView {
    LimitCheckView { user_id: decimal(user_id as nat), action_type, max_actions, window_secs }
}

/// What the handler does first on an event.
pub open spec fn start_spec(event: GatewayEvent) -> StepView {
    match event {
        GatewayEvent::MessageCreate(m) => StepView {
            effects: seq![],
            next: Some(QueryView::MessageLimit {
                message: m@,
                limit: limit_check_spec(m.author_id, MESSAGE_ACTION@, MESSAGE_LIMIT, MESSAGE_WINDOW_SECS),
            }),
        },
        GatewayEvent::AuditLogEntryCreate(entry) => match (entry.kind, entry.user_id, entry.guild_id) {
            (AuditKind::MemberKick, Some(executor_id), Some(guild_id)) => StepView {
                effects: seq![],
                next: Some(QueryView::KickLimit {
                    guild_id,
                    executor_id,
                    limit: limit_check_spec(executor_id, KICK_ACTION@, KICK_LIMIT, KICK_WINDOW_SECS),
                }),
            },
            _ => finished(seq![]),
        },
        _ => finished(seq![]),
    }
}

/// A timeout for the author, where the message was sent in a guild.
pub open spec fn timeout_in_guild(m: MessageView) -> Seq<EffectView> {
    match m.guild_id {
        Some(guild_id) => seq![EffectView::TimeoutMember { guild_id, user_id: m.author_id }],
        None => seq![],
    }
}

/// What the handler does once the store has counted a message: a message
/// over the limit is deleted, its author's recent messages purged and the
/// author timed out; otherwise the fast-path verdict decides, and a message
/// that passes it and is longer than `AI_EVALUATION_MIN_BYTES` bytes goes to
/// the language model.
pub open spec fn after_message_limit(m: MessageView, allowed: bool, verdict: ActionView) -> StepView {
    let delete = EffectView::DeleteMessage { channel_id: m.channel_id, message_id: m.id };
    if !allowed {
        finished(
            seq![delete, EffectView::PurgeAuthor { channel_id: m.channel_id, author_id: m.author_id }]
                + timeout_in_guild(m),
        )
    } else {
        match verdict {
            ActionView::Block(_) => finished(seq![delete]),
            ActionView::BadWord => StepView {
                effects: seq![delete],
                next: Some(QueryView::WarningCount { message: m, user_id: decimal(m.author_id as nat) }),
            },
            ActionView::Pass => if encode_utf8(m.content).len() > AI_EVALUATION_MIN_BYTES {
                finished(seq![EffectView::EvaluateWithAi {
                    channel_id: m.channel_id,
                    message_id: m.id,
                    author_id: m.author_id,
                    content: m.content,
                }])
            } else {
                finished(seq![])
            },
        }
    }
}

/// The warning posted to a member with `warnings` warnings.
pub open spec fn warning_text(author_id: u64, warnings: int) -> Seq<char> {
    "Hey <@"@ + decimal(author_id as nat) + ">, please watch your language. Warning "@
        + signed_decimal(warnings) + "/5"@
}

/// What the handler does once the store has counted a warning (`None` when
/// the store failed, which counts as no warnings): from
/// `WARNING_TIMEOUT_THRESHOLD` warnings on the author is timed out,
/// otherwise warned.
pub open spec fn after_warning_count(m: MessageView, count: Option<i64>) -> StepView {
    let warnings: i64 = match count {
        Some(c) => c,
        None => 0,
    };
    if warnings >= WARNING_TIMEOUT_THRESHOLD {
        finished(timeout_in_guild(m))
    } else {
        finished(seq![EffectView::SendWarning {
            channel_id: m.channel_id,
            content: warning_text(m.author_id, warnings as int),
        }])
    }
}

/// What the handler does once the store has counted a kick (`None` when
/// the store failed, which counts as allowed): an executor over the limit
/// is removed from the guild and banned.
pub open spec fn after_kick_limit(guild_id: u64, executor_id: u64, allowed: Option<bool>) -> StepView {
    let ok = match allowed {
        Some(a) => a,
        None => true,
    };
    if ok {
        finished(seq![])
    } else {
        finished(seq![
            EffectView::RemoveMember { guild_id, user_id: executor_id },
            EffectView::BanMember { guild_id, user_id: executor_id },
        ])
    }
}

/// What the handler does with the language model's judgement of a message.
pub open spec fn after_ai_decision(channel_id: u64, message_id: u64, is_malicious: bool) -> StepView {
    if is_malicious {
        finished(seq![EffectView::DeleteMessage { channel_id, message_id }])
    } else {
        finished(seq![])
    }
}

fn limit_check(user_id: u64, action_type: &str, max_actions: i64, window_secs: u64) -> (r: LimitCheck)
    ensures
        r@ == limit_check_spec(user_id, action_type@, max_actions, window_secs),
{
    let mut action = String::new();
    action.append(action_type);
    assert(action@ =~= action_type@);
    LimitCheck { user_id: decimal_u64(user_id), action_type: action, max_actions, window_secs }
}

/// Starts handling an event.
pub fn start(event: GatewayEvent) -> (r: Step)
    ensures
        r@ == start_spec(event),
{
    match event {
        GatewayEvent::MessageCreate(m) => {
            let limit = limit_check(m.author_id, MESSAGE_ACTION, MESSAGE_LIMIT, MESSAGE_WINDOW_SECS);
            let r = Step { effects: Vec::new(), next: Some(Query::MessageLimit { message: m, limit }) };
            assert(r@.effects =~= Seq::<EffectView>::empty());
            r
        },
        GatewayEvent::AuditLogEntryCreate(entry) => {
            if let AuditKind::MemberKick = entry.kind {
                if let Some(executor_id) = entry.user_id {
                    if let Some(guild_id) = entry.guild_id {
                        let limit = limit_check(executor_id, KICK_ACTION, KICK_LIMIT, KICK_WINDOW_SECS);
                        let r = Step {
                            effects: Vec::new(),
                            next: Some(Query::KickLimit { guild_id, executor_id, limit }),
                        };
                        assert(r@.effects =~= Seq::<EffectView>::empty());
                        return r;
                    }
                }
            }
            let r = Step { effects: Vec::new(), next: None };
            assert(r@.effects =~= Seq::<EffectView>::empty());
            r
        },
        _ => {
            let r = Step { effects: Vec::new(), next: None };
            assert(r@.effects =~= Seq::<EffectView>::empty());
            r
        },
    }
}


fn done(effects: Vec<Effect>) -> (r: Step)
    ensures
        r@ == finished(effects@.map_values(|e: Effect| e@)),
{
    Step { effects, next: None }
}

fn timeout_effects(m: &MessageInfo) -> (r: Vec<Effect>)
    ensures
        r@.map_values(|e: Effect| e@) == timeout_in_guild(m@),
{
    let mut v: Vec<Effect> = Vec::new();
    if let Some(guild_id) = m.guild_id {
        v.push(Effect::TimeoutMember { guild_id, user_id: m.author_id });
    }
    assert(v@.map_values(|e: Effect| e@) =~= timeout_in_guild(m@));
    v
}

fn copy_string(s: &String) -> (r: String)
    ensures
        r@ == s@,
{
    let mut r = String::new();
    r.append(s.as_str());
    assert(r@ =~= s@);
    r
}

/// Goes on with a message once the store has counted it against its
/// author's limit; `allowed` is the store's answer.
pub fn on_message_limit(engine: &AutomodEngine, message: MessageInfo, allowed: bool) -> (r: Step)
    ensures
        r@ == after_message_limit(message@, allowed, fast_path_verdict(message.content@)),
{
    let delete = Effect::DeleteMessage { channel_id: message.channel_id, message_id: message.id };
    if !allowed {
        let mut effects: Vec<Effect> = Vec::new();
        effects.push(delete);
        effects.push(Effect::PurgeAuthor { channel_id: message.channel_id, author_id: message.author_id });
        let mut timeouts = timeout_effects(&message);
        let ghost first_two = effects@;
        let ghost tail = timeouts@;
        effects.append(&mut timeouts);
        proof {
            let f = |e: Effect| e@;
            assert(effects@ == first_two + tail);
            assert((first_two + tail).map_values(f) =~= first_two.map_values(f) + tail.map_values(f));
            assert(first_two.map_values(f) =~= seq![
                EffectView::DeleteMessage { channel_id: message.channel_id, message_id: message.id },
                EffectView::PurgeAuthor { channel_id: message.channel_id, author_id: message.author_id },
            ]);
        }
        return done(effects);
    }
    let verdict = engine.check_fast_path(message.content.as_str());
    match verdict {
        AutomodAction::Block(_) => {
            let mut effects: Vec<Effect> = Vec::new();
            effects.push(delete);
            let r = done(effects);
            assert(r@.effects =~= seq![EffectView::DeleteMessage { channel_id: message.channel_id, message_id: message.id }]);
            r
        },
        AutomodAction::BadWord => {
            let mut effects: Vec<Effect> = Vec::new();
            effects.push(delete);
            let user_id = decimal_u64(message.author_id);
            let (channel_id, message_id) = (message.channel_id, message.id);
            let r = Step { effects, next: Some(Query::WarningCount { message, user_id }) };
            assert(r@.effects =~= seq![EffectView::DeleteMessage { channel_id, message_id }]);
            r
        },
        AutomodAction::Pass => {
            let mut effects: Vec<Effect> = Vec::new();
            let long = message.content.as_str().as_bytes().len() > AI_EVALUATION_MIN_BYTES;
            assert(long == (encode_utf8(message.content@).len() > AI_EVALUATION_MIN_BYTES));
            if long {
                let content = copy_string(&message.content);
                effects.push(Effect::EvaluateWithAi {
                    channel_id: message.channel_id,
                    message_id: message.id,
                    author_id: message.author_id,
                    content,
                });
            }
            let r = done(effects);
            assert(r@.effects =~= after_message_limit(message@, allowed, fast_path_verdict(message.content@)).effects);
            r
        },
    }
}

/// The warning posted to a member with `warnings` warnings.
pub fn build_warning(author_id: u64, warnings: i64) -> (r: String)
    ensures
        r@ == warning_text(author_id, warnings as int),
{
    let mut s = String::new();
    s.append("Hey <@");
    s.append(decimal_u64(author_id).as_str());
    s.append(">, please watch your language. Warning ");
    s.append(decimal_i64(warnings).as_str());
    s.append("/5");
    assert(s@ =~= warning_text(author_id, warnings as int));
    s
}

/// Goes on with a message holding a profanity once the store has counted
/// a warning for its author; `count` is the new count, or `None` when the
/// store failed.
pub fn on_warning_count(message: MessageInfo, count: Option<i64>) -> (r: Step)
    ensures
        r@ == after_warning_count(message@, count),
{
    let warnings: i64 = match count {
        Some(c) => c,
        None => 0,
    };
    if warnings >= WARNING_TIMEOUT_THRESHOLD {
        done(timeout_effects(&message))
    } else {
        let mut effects: Vec<Effect> = Vec::new();
        effects.push(Effect::SendWarning {
            channel_id: message.channel_id,
            content: build_warning(message.author_id, warnings),
        });
        let r = done(effects);
        assert(r@.effects =~= after_warning_count(message@, count).effects);
        r
    }
}

/// Goes on with a kick once the store has counted it against the
/// executor's limit; `allowed` is the store's answer, or `None` when the
/// store failed.
pub fn on_kick_limit(guild_id: u64, executor_id: u64, allowed: Option<bool>) -> (r: Step)
    ensures
        r@ == after_kick_limit(guild_id, executor_id, allowed),
{
    let ok = match allowed {
        Some(a) => a,
        None => true,
    };
    let mut effects: Vec<Effect> = Vec::new();
    if !ok {
        effects.push(Effect::RemoveMember { guild_id, user_id: executor_id });
        effects.push(Effect::BanMember { guild_id, user_id: executor_id });
    }
    let r = done(effects);
    assert(r@.effects =~= after_kick_limit(guild_id, executor_id, allowed).effects);
    r
}

/// Acts on the language model's judgement of a message.
pub fn on_ai_decision(channel_id: u64, message_id: u64, decision: &AiDecision) -> (r: Step)
    ensures
        r@ == after_ai_decision(channel_id, message_id, decision.is_malicious),
{
    let mut effects: Vec<Effect> = Vec::new();
    if decision.is_malicious {
        effects.push(Effect::DeleteMessage { channel_id, message_id });
    }
    let r = done(effects);
    assert(r@.effects =~= after_ai_decision(channel_id, message_id, decision.is_malicious).effects);
    r
}

/// The end of a timeout that starts at `now_secs` (seconds since the Unix
/// epoch) and lasts `TIMEOUT_SECS`, converted to a signed count as `as i64`
/// converts it.
pub fn timeout_deadline(now_secs: u64) -> (r: i64)
    ensures
        r == (now_secs + TIMEOUT_SECS) as i64,
{
    ((now_secs as i128) + (TIMEOUT_SECS as i128)) as i64
}

#[verifier::external_type_specification]
#[verifier::external_body]
pub struct ExTimestamp(twilight_model::util::Timestamp);

#[verifier::external_type_specification]
#[verifier::external_body]
pub struct ExTimestampParseError(twilight_model::util::datetime::TimestampParseError);

/// Whether `twilight_model::util::Timestamp::from_secs` accepts a count of
/// seconds since the Unix epoch: whether the `time` crate's
/// `OffsetDateTime::from_unix_timestamp` can represent it, a range that
/// depends on the features the `time` crate is built with.
pub uninterp spec fn timestamp_accepts(unix_seconds: i64) -> bool;

/// A platform timestamp together with the count of seconds since the Unix
/// epoch it was built from. Only `timestamp_from_secs` builds one, so
/// `timestamp` is always the moment that `unix_seconds` denotes.
pub struct MomentStamp {
    unix_seconds: i64,
    timestamp: twilight_model::util::Timestamp,
}

impl MomentStamp {
    /// The seconds since the Unix epoch this timestamp stands for.
    pub closed spec fn unix_seconds(&self) -> i64 {
        self.unix_seconds
    }

    /// The seconds since the Unix epoch this timestamp stands for.
    pub fn seconds(&self) -> (r: i64)
        ensures
            r == self.unix_seconds(),
    {
        self.unix_seconds
    }

    /// The platform timestamp, to hand to the platform's API.
    pub fn into_timestamp(self) -> twilight_model::util::Timestamp {
        self.timestamp
    }
}

/// Calls `twilight_model::util::Timestamp::from_secs`. The contract says it
/// succeeds exactly for the counts it accepts, and that the result keeps
/// the count it was built from.
#[verifier::external_body]
fn timestamp_from_secs(unix_seconds: i64) -> (r: Result<
    MomentStamp,
    twilight_model::util::datetime::TimestampParseError,
>)
    ensures
        r is Ok <==> timestamp_accepts(unix_seconds),
        r matches Ok(t) ==> t.unix_seconds() == unix_seconds,
{
    match twilight_model::util::Timestamp::from_secs(unix_seconds) {
        Ok(timestamp) => Ok(MomentStamp { unix_seconds, timestamp }),
        Err(e) => Err(e),
    }
}

/// The moment at which a timeout that starts at `now_secs` ends, `now_secs
/// + TIMEOUT_SECS` seconds after the Unix epoch, or `None` when that moment
/// cannot be represented (then no timeout is requested).
pub fn timeout_end(now_secs: u64) -> (r: Option<MomentStamp>)
    ensures
        r is Some <==> timestamp_accepts((now_secs + TIMEOUT_SECS) as i64),
        r matches Some(t) ==> t.unix_seconds() == (now_secs + TIMEOUT_SECS) as i64,
{
    match timestamp_from_secs(timeout_deadline(now_secs)) {
        Ok(ts) => Some(ts),
        Err(_) => None,
    }
}

/// A message over its author's rate limit is handled the same whatever it
/// says: it is deleted, the author's recent messages are purged, and the
/// author is timed out where the message was sent in a guild; nothing else
/// is asked or done.
pub proof fn lemma_spam_handling_ignores_content(m: MessageView, verdict: ActionView, other: ActionView)
    ensures
        after_message_limit(m, false, verdict) == after_message_limit(m, false, other),
        after_message_limit(m, false, verdict).next is None,
        after_message_limit(m, false, verdict).effects[0] == (EffectView::DeleteMessage {
            channel_id: m.channel_id,
            message_id: m.id,
        }),
        after_message_limit(m, false, verdict).effects[1] == (EffectView::PurgeAuthor {
            channel_id: m.channel_id,
            author_id: m.author_id,
        }),
        after_message_limit(m, false, verdict).effects.len() == if m.guild_id is Some { 3int } else { 2int },
{
}

/// A message that a fast-path rule flags is always deleted, and only a
/// message that no rule flags, sent within the rate limit, ever goes to the
/// language model.
pub proof fn lemma_only_clean_messages_reach_ai(m: MessageView, allowed: bool, verdict: ActionView)
    ensures
        allowed && !(verdict is Pass) ==> after_message_limit(m, allowed, verdict).effects
            == seq![EffectView::DeleteMessage { channel_id: m.channel_id, message_id: m.id }],
        forall|i: int| 0 <= i < after_message_limit(m, allowed, verdict).effects.len()
            && #[trigger] after_message_limit(m, allowed, verdict).effects[i] is EvaluateWithAi
            ==> allowed && verdict is Pass,
{
}

/// Warnings escalate: below `WARNING_TIMEOUT_THRESHOLD` warnings the author
/// is warned and never timed out; from it on the author is timed out (in a
/// guild) and never warned again.
pub proof fn lemma_warning_escalation(m: MessageView, count: Option<i64>)
    ensures
        ({
            let warnings: i64 = match count {
                Some(c) => c,
                None => 0,
            };
            let step = after_warning_count(m, count);
            &&& step.next is None
            &&& warnings < WARNING_TIMEOUT_THRESHOLD ==> step.effects.len() == 1
                && step.effects[0] is SendWarning
                && step.effects[0]->SendWarning_channel_id == m.channel_id
            &&& warnings >= WARNING_TIMEOUT_THRESHOLD ==> forall|i: int|
                0 <= i < step.effects.len() ==> #[trigger] step.effects[i] is TimeoutMember
            &&& warnings >= WARNING_TIMEOUT_THRESHOLD && m.guild_id is Some ==> step.effects
                == seq![EffectView::TimeoutMember { guild_id: m.guild_id->0, user_id: m.author_id }]
            &&& warnings >= WARNING_TIMEOUT_THRESHOLD && m.guild_id is None ==> step.effects.len() == 0
        }),
{
}

/// A kick is punished only when the store answers that the executor is over
/// the limit: when the store fails, nothing is done.
pub proof fn lemma_kick_punished_only_when_refused(guild_id: u64, executor_id: u64, allowed: Option<bool>)
    ensures
        after_kick_limit(guild_id, executor_id, allowed).effects.len() > 0 <==> allowed == Some(false),
        after_kick_limit(guild_id, executor_id, allowed).next is None,
        allowed == Some(false) ==> after_kick_limit(guild_id, executor_id, allowed).effects == seq![
            EffectView::RemoveMember { guild_id, user_id: executor_id },
            EffectView::BanMember { guild_id, user_id: executor_id },
        ],
{
}

/// Every message is counted against its author's limit first, whatever it
/// says (an empty text included): the handler does nothing yet and asks the
/// store to count it on the author's `message` counter, five per three
/// seconds.
pub proof fn lemma_every_message_is_counted(m: MessageInfo)
    ensures
        start_spec(GatewayEvent::MessageCreate(m)).effects.len() == 0,
        start_spec(GatewayEvent::MessageCreate(m)).next == Some(QueryView::MessageLimit {
            message: m@,
            limit: LimitCheckView {
                user_id: decimal(m.author_id as nat),
                action_type: "message"@,
                max_actions: 5,
                window_secs: 3,
            },
        }),
{
}

/// A kick entry with an executor and a guild is always counted against the
/// executor's `kick` counter, two per sixty seconds.
pub proof fn lemma_every_kick_is_counted(guild_id: u64, executor_id: u64)
    ensures
        start_spec(GatewayEvent::AuditLogEntryCreate(AuditEntry {
            kind: AuditKind::MemberKick,
            user_id: Some(executor_id),
            guild_id: Some(guild_id),
        })).next == Some(QueryView::KickLimit {
            guild_id,
            executor_id,
            limit: LimitCheckView {
                user_id: decimal(executor_id as nat),
                action_type: "kick"@,
                max_actions: 2,
                window_secs: 60,
            },
        }),
{
}

} // verus!
