//! The 64-bit `since` lock field of a transaction input.
//!
//! Bit 63 selects an absolute or relative lock, bits 62-61 select the
//! metric (block number, epoch number, or timestamp), bits 60-56 are
//! reserved and must be zero, and bits 55-0 carry the metric value.
//! Timestamp values are in seconds and are multiplied by 1000 before any
//! comparison with the millisecond-valued median-time oracle.

use vstd::prelude::*;

verus! {

/// Bit 63: 0 = absolute lock, 1 = relative lock.
pub const LOCK_TYPE_FLAG: u64 = 0x8000_0000_0000_0000;
/// Bits 62-61: the metric of the lock value.
pub const METRIC_TYPE_FLAG_MASK: u64 = 0x6000_0000_0000_0000;
/// Bits 60-56: reserved, must be zero.
pub const REMAIN_FLAGS_BITS: u64 = 0x1f00_0000_0000_0000;
/// Bits 55-0: the metric value.
pub const VALUE_MASK: u64 = 0x00ff_ffff_ffff_ffff;

/// A decoded lock threshold. Timestamps are in seconds.
#[derive(Clone, Copy, Debug, PartialEq, Eq)]
pub enum SinceMetric {
    BlockNumber(u64),
    EpochNumber(u64),
    Timestamp(u64),
}

impl SinceMetric {
    /// The raw 56-bit value the metric carries.
    pub open spec fn spec_value(self) -> u64 {
        match self {
            SinceMetric::BlockNumber(v) => v,
            SinceMetric::EpochNumber(v) => v,
            SinceMetric::Timestamp(v) => v,
        }
    }
}

/// A `since` field viewed through the bit layout above.
#[derive(Clone, Copy, Debug, PartialEq, Eq)]
pub struct Since(pub u64);

impl Since {
    /// Bit 63 is clear: the lock threshold is absolute.
    pub open spec fn spec_is_absolute(self) -> bool {
        self.0 & LOCK_TYPE_FLAG == 0
    }

    pub open spec fn spec_is_relative(self) -> bool {
        !self.spec_is_absolute()
    }

    /// The reserved bits are zero and the metric code is not the invalid `11`.
    pub open spec fn spec_flags_is_valid(self) -> bool {
        (self.0 & REMAIN_FLAGS_BITS == 0)
            && ((self.0 & METRIC_TYPE_FLAG_MASK) != METRIC_TYPE_FLAG_MASK)
    }

    /// The metric and its 56-bit value, or `None` on the invalid metric code.
    pub open spec fn spec_extract_metric(self) -> Option<SinceMetric> {
        let value = self.0 & VALUE_MASK;
        if self.0 & METRIC_TYPE_FLAG_MASK == 0 {
            Some(SinceMetric::BlockNumber(value))
        } else if self.0 & METRIC_TYPE_FLAG_MASK == 0x2000_0000_0000_0000u64 {
            Some(SinceMetric::EpochNumber(value))
        } else if self.0 & METRIC_TYPE_FLAG_MASK == 0x4000_0000_0000_0000u64 {
            Some(SinceMetric::Timestamp(value))
        } else {
            None
        }
    }

    pub fn is_absolute(self) -> (r: bool)
        ensures
            r == self.spec_is_absolute(),
    {
        self.0 & LOCK_TYPE_FLAG == 0
    }

    #[inline]
    pub fn is_relative(self) -> (r: bool)
        ensures
            r == self.spec_is_relative(),
    {
        !self.is_absolute()
    }

    pub fn flags_is_valid(self) -> (r: bool)
        ensures
            r == self.spec_flags_is_valid(),
    {
        (self.0 & REMAIN_FLAGS_BITS == 0)
            && ((self.0 & METRIC_TYPE_FLAG_MASK) != METRIC_TYPE_FLAG_MASK)
    }

    pub fn extract_metric(self) -> (r: Option<SinceMetric>)
        ensures
            r == self.spec_extract_metric(),
    {
        let value = self.0 & VALUE_MASK;
        match self.0 & METRIC_TYPE_FLAG_MASK {
            0x0000_0000_0000_0000 => Some(SinceMetric::BlockNumber(value)),
            0x2000_0000_0000_0000 => Some(SinceMetric::EpochNumber(value)),
            0x4000_0000_0000_0000 => Some(SinceMetric::Timestamp(value)),
            _ => None,
        }
    }

    /// Encodes a lock type and a metric into a `since` field.
    ///
    /// The contract is the round-trip law: for every lock type and every
    /// metric whose value fits in 56 bits, decoding the encoded field yields
    /// the same lock type and the same metric, and the reserved bits are
    /// valid.
    pub fn encode(relative: bool, metric: SinceMetric) -> (s: Since)
        requires
            metric.spec_value() <= VALUE_MASK,
        ensures
            s.spec_is_relative() == relative,
            s.spec_flags_is_valid(),
            s.spec_extract_metric() == Some(metric),
    {
        let lock_bit: u64 = if relative { LOCK_TYPE_FLAG } else { 0 };
        let (metric_bits, value): (u64, u64) = match metric {
            SinceMetric::BlockNumber(v) => (0x0000_0000_0000_0000, v),
            SinceMetric::EpochNumber(v) => (0x2000_0000_0000_0000, v),
            SinceMetric::Timestamp(v) => (0x4000_0000_0000_0000, v),
        };
        let raw = lock_bit | metric_bits | value;
        proof {
            let l = lock_bit;
            let m = metric_bits;
            let v = value;
            assert((l | m | v) & 0x8000_0000_0000_0000u64 == l
                && (l | m | v) & 0x1f00_0000_0000_0000u64 == 0
                && (l | m | v) & 0x6000_0000_0000_0000u64 == m
                && (l | m | v) & 0x00ff_ffff_ffff_ffffu64 == v) by (bit_vector)
                requires
                    l == 0 || l == 0x8000_0000_0000_0000u64,
                    m == 0 || m == 0x2000_0000_0000_0000u64 || m == 0x4000_0000_0000_0000u64,
                    v <= 0x00ff_ffff_ffff_ffffu64;
        }
        Since(raw)
    }
}

} // verus!
