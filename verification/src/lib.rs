//! Workflow core of a chat-driven marketplace bot.
//!
//! Inbound messaging events are routed, by the role of the chat they occur
//! in, through a submission pipeline that takes an uploaded app bundle from
//! "submitted" through "in review" to "published".  The crate holds the
//! verified decision logic: the role registry, the contact pools, the bundle
//! metadata extractor and the lifecycle orchestrator.  The messaging
//! transport and the persistent store are outside collaborators; callers
//! feed decoded events in and carry the returned actions out.

pub mod messages;
pub mod utils;
pub mod db;
pub mod request_handlers;
pub mod bot;
