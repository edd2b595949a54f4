//! Core of a forwarding HTTP proxy: method-based dispatch, a shared response
//! cache with a consistent check-then-read contract, and uniform translation
//! of origin transport failures into `502 Bad Gateway` responses.
//!
//! The surrounding I/O — accepting connections, DNS resolution, the byte-level
//! HTTP codec, and the worker pool — lives outside this library and hands it
//! plain values: a parsed request in, a response to send back out.

pub mod cache;
pub mod dispatch;
pub mod handler;
pub mod laws;
pub mod message;
