//! Turns a free-text chat message about an academic event into a structured
//! event record: a deterministic template match first, a language model as
//! the fallback.

pub mod event;
pub mod json_slice;
pub mod pattern;
pub mod record;
pub mod pipeline;
