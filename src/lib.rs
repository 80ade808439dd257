//! A client library for a streaming price-tick feed: the binary tick codec,
//! the counter bank shared by the reader and the reporter, and the session
//! state machine that decides what the transport driver does next.

pub mod counters;
pub mod session;
pub mod tick;
