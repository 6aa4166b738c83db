//! Known Yaesu ASCII radio ID responses

use vstd::prelude::*;

verus! {

/// FT-991 ID
pub const FT_991: &'static str = "0570";

/// FT-991A ID
pub const FT_991A: &'static str = "0670";

/// FTDX-101D ID
pub const FTDX_101D: &'static str = "0681";

/// FTDX-101MP ID
pub const FTDX_101MP: &'static str = "0682";

/// FTDX-10 ID
pub const FTDX_10: &'static str = "0761";

/// FT-710 ID
pub const FT_710: &'static str = "0800";

} // verus!
