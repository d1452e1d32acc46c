//! A verified core for the TypeSafe SDK: configuration precedence, header
//! merging and redaction, error classification and messages, log filtering,
//! the retry decision and the command helpers.

pub mod text;
pub mod env;
pub mod headers;
pub mod json;
pub mod error;
pub mod log;
pub mod http;
pub mod retry;
pub mod config;
pub mod client;
pub mod answers;
pub mod models;
pub mod cmd;
pub mod labels;
pub mod declaration;
