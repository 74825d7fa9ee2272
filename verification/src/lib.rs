//! Commit-message generation against a chat-completion endpoint: the request
//! that is sent for a diff, and the message that is read out of the reply.
//!
//! The crate performs no I/O. A caller hands it the key, the model, the prompt
//! and the diff, performs the request it gets back, and hands over what the
//! transport reported.

pub mod config;
pub mod deepseek;
pub mod json;
pub mod request;
pub mod response;
pub mod text;
