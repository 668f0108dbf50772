//! Core of a minimal HTTP/1.1 server: request parsing, route dispatch, and
//! response serialization over raw bytes. The surrounding process (sockets,
//! filesystem, startup) lives outside this crate and exchanges plain byte
//! vectors with it.

pub mod bytes;
pub mod config;
pub mod handler;
pub mod laws;
pub mod numbers;
pub mod request;
pub mod response;
pub mod router;
pub mod text;
