//! A verified core for a chat-assistant relay service.
//!
//! The service lets application users converse with a remotely hosted
//! assistant: it maps each user to a remote conversation thread, relays
//! messages, drives an asynchronous remote "run" to completion under a
//! deadline, serves mid-run tool-call requests, and records every turn in an
//! append-only conversation store. This crate holds the decision logic of
//! that service — the run-polling state machine, the chat-turn state machine,
//! the generation supervisor that rotates the active assistant, the store
//! semantics, and the text utilities — all specified and verified. The
//! surrounding process (HTTP, clock, persistence engine) supplies events and
//! carries out the actions these state machines request.

pub mod chat;
pub mod clock;
pub mod completion;
pub mod errors;
pub mod json;
pub mod messages;
pub mod resources;
pub mod run;
pub mod store;
pub mod supervisor;
pub mod text;

pub use errors::AssistantError;
