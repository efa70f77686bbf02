//! The second moderation layer: the prompt sent to a locally hosted
//! language model and the reading of its reply.

use vstd::prelude::*;
use crate::text::{remove_matches, remove_occurrences, trim, trim_spec};

verus! {

/// The model's judgement of a message.
pub struct AiDecision {
    pub is_malicious: bool,
    pub reason: String,
}

/// The body of a generation request to the model server.
pub struct GenerateRequest {
    pub model: String,
    pub prompt: String,
    pub stream: bool,
}

/// The instructions that precede the message text in the prompt.
pub const PROMPT_HEAD: &'static str = "You are a strict Discord Auto-Moderation AI. Analyze the following message for spam, phishing, intense toxicity, or malicious intent.\n\nMessage: \"";

/// The instructions that follow the message text in the prompt.
pub const PROMPT_TAIL: &'static str = "\"\n\nRespond ONLY with a valid JSON object in this exact format, with no markdown formatting or extra text:\n{\"is_malicious\": true/false, \"reason\": \"short explanation\"}";

/// The path of the generation endpoint, relative to the server's base URL.
pub const GENERATE_PATH: &'static str = "/api/generate";

/// The fence that opens a JSON code block in a reply.
pub const JSON_FENCE: &'static str = "```json";

/// The fence that delimits a code block in a reply.
pub const FENCE: &'static str = "```";

/// The prompt that asks the model to judge `content`.
pub open spec fn prompt_spec(content: Seq<char>) -> Seq<char> {
    PROMPT_HEAD@ + content + PROMPT_TAIL@
}

/// The JSON text of a reply once code fences and surrounding white space
/// are gone: every `` ```json `` is removed, then every `` ``` ``, then the
/// result is trimmed.
pub open spec fn cleaned_reply(raw: Seq<char>) -> Seq<char> {
    trim_spec(remove_matches(remove_matches(raw, JSON_FENCE@), FENCE@))
}

/// Builds the prompt that asks the model to judge `content`.
pub fn build_prompt(content: &str) -> (r: String)
    ensures
        r@ == prompt_spec(content@),
{
    let mut s = String::new();
    s.append(PROMPT_HEAD);
    s.append(content);
    s.append(PROMPT_TAIL);
    assert(s@ =~= prompt_spec(content@));
    s
}

/// The URL of the generation endpoint of the server at `base_url`.
pub fn generate_url(base_url: &str) -> (r: String)
    ensures
        r@ == base_url@ + GENERATE_PATH@,
{
    let mut s = String::new();
    s.append(base_url);
    s.append(GENERATE_PATH);
    assert(s@ =~= base_url@ + GENERATE_PATH@);
    s
}

/// The request that asks `model` to judge `content`, without streaming.
pub fn generate_request(model: &str, content: &str) -> (r: GenerateRequest)
    ensures
        r.model@ == model@,
        r.prompt@ == prompt_spec(content@),
        !r.stream,
{
    let mut m = String::new();
    m.append(model);
    assert(m@ =~= model@);
    GenerateRequest { model: m, prompt: build_prompt(content), stream: false }
}

/// Whether an HTTP status code reports success (the 2xx class).
pub fn is_success_status(status: u16) -> (r: bool)
    ensures
        r == (200 <= status && status < 300),
{
    200 <= status && status < 300
}

/// Strips code fences and surrounding white space from a model reply, so
/// that what is left is the JSON object the prompt asked for.
pub fn clean_reply(raw: &str) -> (r: String)
    ensures
        r@ == cleaned_reply(raw@),
{
    proof {
        reveal_strlit("```json");
        reveal_strlit("```");
    }
    let without_json_fence = remove_occurrences(raw, JSON_FENCE);
    let without_fences = remove_occurrences(without_json_fence.as_str(), FENCE);
    trim(without_fences.as_str())
}

} // verus!
