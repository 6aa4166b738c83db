//! Catapult: CAT (Computer Aided Transceiver) protocol parsing, encoding,
//! translation and multiplexing for amateur radio transceivers.
//!
//! The crate is organised as:
//! - `text`: decimal/hex digit grammars shared by the ASCII protocols
//! - `command`: the protocol-neutral `RadioRequest` / `RadioResponse` model
//! - one module per wire protocol (`kenwood`, `icom`, `yaesu`, `yaesu_ascii`,
//!   `elecraft`, `flex`) with streaming codecs and conversions
//! - `engine`, `translation`, `state`: the multiplexer that tracks radios and
//!   forwards the active radio's state to an amplifier

pub mod text;
pub mod stream;
pub mod command;
pub mod error;
pub mod protocol;
pub mod kenwood;
pub mod icom;
pub mod yaesu;
pub mod yaesu_ascii;
pub mod elecraft;
pub mod flex;
pub mod models;
pub mod display;
pub mod mux;
pub mod sim;
pub mod detect;
