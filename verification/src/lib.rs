//! Long-polling client library for a messaging-bot HTTP API.
//!
//! The library tracks which inbound updates have already been retrieved by
//! computing a fetch cursor from each received batch, and drives a
//! sequential fetch/advance cycle through a small state machine. The HTTP
//! transport itself, JSON decoding and configuration loading are left to the
//! surrounding application; everything here is plain data and verified logic.

pub mod client;
pub mod cursor;
pub mod get_updates;
pub mod get_me;
pub mod mocks;
pub mod numeral;
pub mod poll;
