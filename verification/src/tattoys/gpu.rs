//! The layers that a shader draws.
pub mod handle_messages;
pub mod ichannel;
pub mod pipeline;
pub mod shaderer;
