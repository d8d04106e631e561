//! Verified core of the Desk HUD backend: usage-label rules for the chat and
//! Codex usage widgets, JSON field selection, error-body compaction, reset-time
//! formatting, local message counting and media-control decisions.

pub mod text;
pub mod json;
pub mod plan;
pub mod chat;
pub mod fetch;
pub mod api;
pub mod time;
pub mod codex;
pub mod messages;
pub mod media;
pub mod laws;
pub mod field_laws;
