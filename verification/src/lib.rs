//! Verified core of a small Twitch OAuth token revocation tool.
//!
//! The library normalizes a raw token (an optional `oauth:` marker followed
//! by a fixed-length credential), and decides the outcome of the two
//! provider calls — validation and revocation — from their HTTP status code
//! and response body.  The network edge itself lives outside the library and
//! hands plain values in.

pub mod json;
pub mod records;
pub mod response;
pub mod verify;
