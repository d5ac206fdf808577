//! Firmware upgrades over the air for a cellular modem on a serial line.
//!
//! The library holds the protocol: it frames commands and decides when a
//! response is complete (`engine`), reads facts out of responses (`parser`),
//! reads the notifications that the modem sends on its own (`notify`), and
//! drives the upgrade from the request to its end (`upgrade`). It never
//! touches a serial line, a clock or a thread: the caller does what the
//! library directs and reports back what happened.
//!
//! Searches for regular expressions are done by the `regex` crate and bytes
//! are decoded by `String::from_utf8_lossy`; what they return is taken on
//! trust (`pattern`, `decode`). Everything else is verified.

pub mod decimal;
pub mod decode;
pub mod engine;
pub mod error;
pub mod notify;
pub mod parser;
pub mod pattern;
pub mod text;
pub mod upgrade;
