//! Command dispatch and reply decoding for a WebDriver session's alert
//! operations: typing data, protocol commands and their wire form, the
//! decoding of a driver's reply into a typed result or a structured error,
//! and the alert façade that forwards to a session handle.
pub mod text;
pub mod keys;
pub mod json;
pub mod error;
pub mod command;
pub mod session;
pub mod alert;
pub mod laws;
