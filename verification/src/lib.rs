//! Verified core of a chat-bot command pipeline for a small line-oriented
//! scripting language: flag parsing, code-fence extraction, stage dispatch
//! around an external tokenizer/parser/interpreter, and reply delivery.

pub mod config;
pub mod delivery;
pub mod engine;
pub mod extract;
pub mod guard;
pub mod pipeline;
pub mod stages;
pub mod text;
