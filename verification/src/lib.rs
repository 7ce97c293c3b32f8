//! Core logic of a terminal chat client for an Ollama-style backend.
//!
//! The crate holds the verified heart of the client: the streaming-response
//! assembler, the conversation store with its prompting policy and history
//! reduction, and the tool-call dispatcher's decision logic.  Transport,
//! terminal rendering and the file system live outside, in the surrounding
//! binary, which exchanges plain values with this library.

pub mod args;
pub mod commands;
pub mod compact;
pub mod editor;
pub mod filetools;
pub mod limits;
pub mod model;
pub mod msg;
pub mod request;
pub mod response;
pub mod session;
pub mod store;
pub mod text;
pub mod tokens;
pub mod tools;
