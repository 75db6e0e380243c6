//! Orchestration core of a local chat desktop.
//!
//! A send goes through four parts. The registry of `gate` lets one
//! generation run per conversation and gives each worker its lock slot.
//! The loop of `tool_loop` alternates between the chat backend and the
//! tools it asks for, for a bounded number of round trips. The session of
//! `streaming` publishes an answer piece by piece and stores the log at a
//! bounded rate. The run of `agent` calls the external agent tool and
//! tries again after a stale session lock. `send` ties them to the log and
//! the index of `chats`.
//!
//! Nothing here reads a clock, a file or a socket. The caller hands in
//! times and texts, performs what a step asks for, and hands back what
//! came of it.

pub mod agent;
pub mod chat_stream;
pub mod chats;
pub mod desktop_agent;
pub mod gate;
pub mod gateway;
pub mod ids;
pub mod json;
pub mod models;
pub mod ollama;
pub mod openclaw;
pub mod openclaw_exec;
pub mod profiles;
pub mod prompt;
pub mod send;
pub mod settings;
pub mod state;
pub mod streaming;
pub mod text;
pub mod tool_loop;
pub mod tools;
