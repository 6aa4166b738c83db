//! Yaesu RX status byte flags

use vstd::prelude::*;

verus! {

/// Squelch open (signal present)
pub const SQUELCH_OPEN: u8 = 0x80;

/// CTCSS/DCS match
pub const TONE_MATCH: u8 = 0x40;

/// Discriminator centered
pub const DISC_CENTER: u8 = 0x20;

/// S-meter reading (bits 0-3)
pub const S_METER_MASK: u8 = 0x0F;

} // verus!
