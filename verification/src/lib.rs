//! A generic authenticated signed-request client core.
//!
//! The core turns plain HTTP verb calls into fully authenticated calls
//! against a session-token REST API: it composes target URLs, acquires a
//! fresh session token for every signed operation, and attaches the signing
//! headers that must accompany every business call.  The core plans each
//! wire call as plain data (`LoginRequest`, `WireRequest`); an unverified
//! shell performs the actual transport and hands the outcomes back.

pub mod client;
pub mod digits;
pub mod headers;
