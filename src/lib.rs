//! Typed value layer for a remote management API whose wire encoding mixes
//! several representations for one field: timestamps as RFC3339 strings,
//! epoch integers or sentinel strings; network addresses as literals or
//! sentinel strings; booleans as the integers 0 and 1.
//!
//! Each value type decodes every legal wire form into one value, encodes to
//! exactly one canonical form, and refuses malformed input with an error
//! that carries the offending token.
pub mod date_time;
pub mod network_address;
pub mod tinyint;

pub mod ipv4;
pub mod mac;
pub mod rfc3339;
pub mod text;

pub mod common;
pub mod edge;
pub mod error;
pub mod gateway;
pub mod login;
pub mod property;
