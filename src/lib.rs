//! Request-orchestration core of a small command-line client for a
//! chat-completion API: configuration resolution, request bodies, the
//! outcome of a call, response decoding, output rendering and the
//! conversation state machine.

pub mod config;
pub mod error;
pub mod output;
pub mod prompt;
pub mod resolve;
pub mod response;
pub mod session;
pub mod transport;
pub mod version;
pub mod wire;
