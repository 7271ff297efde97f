//! A per-connection relay session: a resumable state machine that counts
//! newline-terminated lines arriving on the read half of a connection,
//! drains a fixed-size byte buffer to the write half, and finishes with a
//! flush once end-of-stream has been seen and the buffer is empty.
//!
//! The session itself performs no I/O: a driver reads and writes the
//! connection and reports each outcome back as an event. Every state
//! transition is verified here.

pub mod lines;
pub mod reader;
pub mod session;
