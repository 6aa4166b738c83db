//! Yaesu TX status byte flags

use vstd::prelude::*;

verus! {

/// Power output / SWR meter (bits 0-3)
pub const METER_MASK: u8 = 0x0F;

/// High SWR
pub const HIGH_SWR: u8 = 0x40;

/// Split active
pub const SPLIT: u8 = 0x20;

} // verus!
