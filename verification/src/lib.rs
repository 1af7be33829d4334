//! Core of an interactive chat client: a busy-work counter, the chat data
//! model with its nested action-packet encoding, and the session event loop
//! that turns inputs and worker results into state changes and commands.

pub mod busy;
pub mod chat;
pub mod engine;
pub mod packet;
pub mod queues;
