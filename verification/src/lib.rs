//! Interactive chat client core: command parsing and dispatch, conversation
//! history, model settings, the streaming-chat state machine, and the decoding
//! of chat-completion responses and server-sent events.

pub mod client;
pub mod command;
pub mod errors;
pub mod handlers;
pub mod session;
pub mod history;
pub mod settings;
pub mod output;
pub mod parser;
pub mod registry;
pub mod text;
