//! Moderation rules for a chat platform: spam rate limits, fast content
//! checks, the evaluation prompt sent to a language model, and the decisions
//! an event handler takes for each gateway event.

pub mod text;
pub mod automod;
pub mod ratelimit;
pub mod events;
pub mod load;
