//! UV index bands.

use vstd::prelude::*;
use vstd::string::StringExecFns;
use crate::binary64::Binary64;

verus! {

/// Bit pattern of 3.0, the lowest UV index of the moderate band.
pub const UV_MODERATE_FROM_BITS: u64 = 0x4008_0000_0000_0000;

/// Bit pattern of 6.0, the lowest UV index of the high band.
pub const UV_HIGH_FROM_BITS: u64 = 0x4018_0000_0000_0000;

/// Bit pattern of 8.0, the lowest UV index of the very high band.
pub const UV_VERY_HIGH_FROM_BITS: u64 = 0x4020_0000_0000_0000;

/// Bit pattern of 11.0, the lowest UV index of the extreme band.
pub const UV_EXTREME_FROM_BITS: u64 = 0x4026_0000_0000_0000;

/// The band of a UV index.
#[derive(Debug, Clone, Copy, PartialEq, Eq, Structural)]
pub enum UvIndex {
    Low,
    Moderate,
    High,
    VeryHigh,
    Extreme,
}

/// The band of a UV index value: below 3 low, below 6 moderate, below 8 high,
/// below 11 very high, otherwise (NaN included) extreme.
pub open spec fn uv_band(value: Binary64) -> UvIndex {
    if value.is_less(Binary64 { bits: UV_MODERATE_FROM_BITS }) {
        UvIndex::Low
    } else if value.is_less(Binary64 { bits: UV_HIGH_FROM_BITS }) {
        UvIndex::Moderate
    } else if value.is_less(Binary64 { bits: UV_VERY_HIGH_FROM_BITS }) {
        UvIndex::High
    } else if value.is_less(Binary64 { bits: UV_EXTREME_FROM_BITS }) {
        UvIndex::VeryHigh
    } else {
        UvIndex::Extreme
    }
}

/// The text shown for a band.
pub open spec fn uv_text(band: UvIndex) -> Seq<char> {
    match band {
        UvIndex::Low => "Low"@,
        UvIndex::Moderate => "Moderate"@,
        UvIndex::High => "High"@,
        UvIndex::VeryHigh => "Very High"@,
        UvIndex::Extreme => "Extreme"@,
    }
}

impl UvIndex {
    /// The rank of the band, from 0 (low) to 4 (extreme).
    pub open spec fn level(self) -> int {
        match self {
            UvIndex::Low => 0,
            UvIndex::Moderate => 1,
            UvIndex::High => 2,
            UvIndex::VeryHigh => 3,
            UvIndex::Extreme => 4,
        }
    }

    /// The text shown for the band.
    pub fn to_string(&self) -> (r: String)
        ensures
            r@ == uv_text(*self),
    {
        match self {
            Self::Low => String::from_str("Low"),
            Self::Moderate => String::from_str("Moderate"),
            Self::High => String::from_str("High"),
            Self::VeryHigh => String::from_str("Very High"),
            Self::Extreme => String::from_str("Extreme"),
        }
    }
}

impl From<Binary64> for UvIndex {
    /// The band of a UV index value.
    fn from(value: Binary64) -> (r: Self) {
        if value.less_than(&Binary64 { bits: UV_MODERATE_FROM_BITS }) {
            Self::Low
        } else if value.less_than(&Binary64 { bits: UV_HIGH_FROM_BITS }) {
            Self::Moderate
        } else if value.less_than(&Binary64 { bits: UV_VERY_HIGH_FROM_BITS }) {
            Self::High
        } else if value.less_than(&Binary64 { bits: UV_EXTREME_FROM_BITS }) {
            Self::VeryHigh
        } else {
            Self::Extreme
        }
    }
}

impl vstd::std_specs::convert::FromSpecImpl<Binary64> for UvIndex {
    open spec fn obeys_from_spec() -> bool {
        true
    }

    open spec fn from_spec(v: Binary64) -> UvIndex {
        uv_band(v)
    }
}

/// A larger UV index never falls in a lower band.
pub proof fn lemma_uv_band_monotone(a: Binary64, b: Binary64)
    requires
        a.is_at_most(b),
    ensures
        uv_band(a).level() <= uv_band(b).level(),
{
}

} // verus!
