//! What the command-line surface decides: stable error codes, input items,
//! the shorthand question, configuration diagnosis and the classification
//! report.

pub mod ask;
pub mod asking;
pub mod classify;
pub mod doctor;
pub mod kit;
