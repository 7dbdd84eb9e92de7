//! Verified core of a minimal concurrent HTTP service.
//!
//! The library models the accept-and-dispatch core of the server: the
//! dispatcher that owns the listening socket and starts one task per accepted
//! connection, the per-connection protocol loop, and the pluggable request
//! handler.  The surrounding process (socket I/O, the async runtime) lives
//! outside the library and drives these state machines; every decision the
//! server makes is taken by a verified function here.

pub mod connection;
pub mod dispatcher;
pub mod handler;
pub mod message;
pub mod model;
