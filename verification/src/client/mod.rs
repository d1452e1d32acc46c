//! The client's own logic: which headers go on the wire, what a call becomes
//! attempt by attempt, and whether a failed attempt earns another.
//!
//! Sending is asynchronous I/O and belongs to the application; every decision
//! it makes between attempts is taken here.

pub mod attempt;
pub mod headers;
pub mod options;
pub mod send;

pub use self::headers::VERSION;
pub use self::options::{RequestOptions, Responded};
