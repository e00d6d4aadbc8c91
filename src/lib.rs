//! A streaming completion engine: it turns a chat request into an ordered,
//! replayable log of progress entries while running a multi-turn
//! tool-calling protocol, and coalesces concurrent requests for one answer.
pub mod text;
pub mod entry;
pub mod buffer;
pub mod turn;
pub mod number;
pub mod args;
pub mod prompt;
pub mod registry;
pub mod key;
pub mod mcp;
pub mod events;
pub mod reply;
pub mod api;
pub mod models;
