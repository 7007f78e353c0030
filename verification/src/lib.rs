//! A minimal, verified HTTP request-serving core: a router over
//! method/path patterns, typed extractors for path, query and body data,
//! an error mapper, a lock-disciplined shared counter, and the startup
//! decision for adopting an externally provided listening socket.
//!
//! Wire I/O (sockets, file reads) lives outside this crate; the library
//! works on plain bytes and values and states exactly what it computes.

pub mod bytesx;
pub mod dispatch;
pub mod errmap;
pub mod extract;
pub mod handlers;
pub mod jsonio;
pub mod listener;
pub mod router;
pub mod state;
