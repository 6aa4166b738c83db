//! The multiplexer: tracks the state of several radios, decides which one
//! is active (controls the amplifier), and translates the active radio's
//! reports into the amplifier's protocol.
//!
//! Switching modes: manual (the user selects the active radio),
//! frequency-triggered (a radio that changes frequency takes over, the
//! default) and automatic (a frequency change or PTT takes over).

pub mod error;
pub mod state;
pub mod translation;
pub mod engine;
pub mod events;
pub mod channel;
pub mod amplifier;
pub mod codec;
pub mod actor;
pub mod radio_link;
