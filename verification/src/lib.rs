//! Verified core of a PHP runtime for Fastly Compute@Edge.
//!
//! The library holds the request and response state machines that sit
//! between the PHP SAPI callbacks and the Fastly host, the bookkeeping of the
//! code readers that feed PHP source to the compiler, and the pure helpers that
//! build server variables, header lines and build settings.

pub mod cstr;
pub mod error;
pub mod host;
pub mod request;
pub mod response;
pub mod text;
pub mod sapi;
pub mod buffers;
pub mod code;
pub mod archive;
pub mod setup;
pub mod response_state;
pub mod legacy;
pub mod harness;
