//! A TLS client session over an engine that does no I/O of its own.
//!
//! The engine (rustls, in its unbuffered form) is handed the bytes that came
//! in and says what it needs next. The driver in [`session`] acts on that:
//! it stages bytes in two buffers ([`buffer`]), grows the outgoing one, if
//! it can grow, when a record does not fit ([`retry`]), sends one HTTP
//! request and looks at what comes back ([`http`]), and keeps count of what
//! was achieved ([`progress`]). Reading from and writing to the transport is
//! left to the caller, who is told when to do which.

pub mod buffer;
pub mod engine;
pub mod http;
pub mod progress;
pub mod retry;
pub mod session;
