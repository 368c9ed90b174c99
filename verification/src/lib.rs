//! Typed decoding of the MaaCore event protocol: each event arrives as a
//! numeric message code paired with a JSON payload string and is decoded into
//! an exhaustively matchable message value, with typed errors for unknown
//! codes, malformed payloads and unknown discriminants.

pub mod detail;
pub mod json;
pub mod message;
pub mod subtask;
pub mod task;
pub mod taskchain;
