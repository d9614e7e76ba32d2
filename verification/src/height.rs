//! Telemetry decoding and the shared height cache.
//!
//! A notification payload carries a raw height sample in two bytes at
//! fixed offsets. The decoder turns such a sample, together with the
//! previously decoded height, into a physical height in tenths of an
//! inch. The cache holds the most recently decoded height beside the
//! raw byte pair it came from; the sentinel value `-1` means that no
//! sample has been received since the last reset.

use vstd::prelude::*;

verus! {

/// Lowest physical height the desk reports, in tenths of an inch (25.2").
pub const MIN_PHYSICAL_HEIGHT: isize = 252;

/// Highest physical height: the low byte spans `0x00..=0xff` above the minimum.
pub const MAX_PHYSICAL_HEIGHT: isize = MIN_PHYSICAL_HEIGHT + 0xff;

/// Midpoint of the physical range; decides how the wraparound marker is read.
pub const MID_PHYSICAL_HEIGHT: isize = 379;

/// Typical sitting height, in tenths of an inch.
pub const AVG_SITTING_HEIGHT: isize = 260;

/// Typical standing height, in tenths of an inch.
pub const AVG_STANDING_HEIGHT: isize = 405;

/// Midpoint between the typical sitting and standing heights.
pub const AVG_MID_HEIGHT: isize = 332;

/// Cache value meaning "no sample received since the last reset".
pub const SENTINEL_HEIGHT: isize = -1;

/// Offset of the low byte of a raw sample in a notification payload.
pub const RAW_LOW_OFFSET: usize = 5;

/// Offset of the high byte of a raw sample in a notification payload.
pub const RAW_HIGH_OFFSET: usize = 7;

/// The decoded height for a raw `(low, high)` sample given the previous
/// estimate. A low byte below `0xfd` is the offset above the minimum
/// height; `0xfd..=0xff` is a wraparound marker, and the side of the
/// midpoint the previous estimate was on picks which byte to use.
pub open spec fn spec_estimate_height(low: u8, high: u8, last_height: int) -> int {
    if low < 0xfd {
        MIN_PHYSICAL_HEIGHT + low
    } else if last_height < MID_PHYSICAL_HEIGHT {
        MIN_PHYSICAL_HEIGHT + high
    } else {
        MIN_PHYSICAL_HEIGHT + low
    }
}

/// Pull the raw `(low, high)` byte pair out of a notification payload.
pub fn get_raw_height(data: &[u8]) -> (r: (u8, u8))
    requires
        data@.len() > RAW_HIGH_OFFSET,
    ensures
        r.0 == data@[RAW_LOW_OFFSET as int],
        r.1 == data@[RAW_HIGH_OFFSET as int],
{
    (data[RAW_LOW_OFFSET], data[RAW_HIGH_OFFSET])
}

/// Decode one raw sample into a physical height. The result depends only
/// on the sample and the previous estimate, and always lies inside the
/// physical range, so it is never the sentinel.
pub fn estimate_height(raw: (u8, u8), last_height: isize) -> (r: isize)
    ensures
        r == spec_estimate_height(raw.0, raw.1, last_height as int),
        MIN_PHYSICAL_HEIGHT <= r <= MAX_PHYSICAL_HEIGHT,
{
    let low = raw.0 as isize;
    let high = raw.1 as isize;

    let raw_height = if low >= 0xfd {
        if last_height < MID_PHYSICAL_HEIGHT {
            high
        } else {
            low
        }
    } else {
        low
    };

    MIN_PHYSICAL_HEIGHT + raw_height
}

/// One raw height sample, pulled from the fixed offsets of a
/// notification payload.
#[derive(Clone, Copy, Debug, PartialEq, Eq, Structural)]
pub struct UpliftDeskHeight {
    low: u8,
    high: u8,
}

impl UpliftDeskHeight {
    /// The low byte of the sample.
    pub closed spec fn spec_low(self) -> u8 {
        self.low
    }

    /// The high byte of the sample.
    pub closed spec fn spec_high(self) -> u8 {
        self.high
    }

    /// Read a sample out of a notification payload.
    pub fn new(data: &[u8]) -> (r: UpliftDeskHeight)
        requires
            data@.len() > RAW_HIGH_OFFSET,
        ensures
            r.spec_low() == data@[RAW_LOW_OFFSET as int],
            r.spec_high() == data@[RAW_HIGH_OFFSET as int],
    {
        UpliftDeskHeight { low: data[RAW_LOW_OFFSET], high: data[RAW_HIGH_OFFSET] }
    }

    /// The decoded physical height of the sample, taken with no
    /// previous estimate: below the wraparound marker the low byte is
    /// the offset above the minimum height, at the marker the high byte
    /// is used.
    pub fn physical_height(&self) -> (r: usize)
        ensures
            r == spec_estimate_height(self.spec_low(), self.spec_high(), SENTINEL_HEIGHT as int),
            MIN_PHYSICAL_HEIGHT <= r <= MAX_PHYSICAL_HEIGHT,
    {
        estimate_height((self.low, self.high), SENTINEL_HEIGHT) as usize
    }
}

/// The latest decoded height beside the raw byte pair it came from.
///
/// The decoded height and the raw pair are one value, so a reader can
/// never observe a torn update. A decoded height is either the sentinel
/// or inside the physical range.
pub struct HeightCache {
    height: isize,
    raw_low: u8,
    raw_high: u8,
}

impl HeightCache {
    /// The decoded height, or the sentinel.
    pub closed spec fn spec_height(self) -> int {
        self.height as int
    }

    /// The raw byte pair of the latest sample.
    pub closed spec fn spec_raw(self) -> (u8, u8) {
        (self.raw_low, self.raw_high)
    }

    /// The height is the sentinel or lies in the physical range.
    pub open spec fn wf(self) -> bool {
        self.spec_height() == SENTINEL_HEIGHT
            || MIN_PHYSICAL_HEIGHT <= self.spec_height() <= MAX_PHYSICAL_HEIGHT
    }

    /// Whether a sample has been decoded since the last reset.
    pub open spec fn spec_has_sample(self) -> bool {
        self.spec_height() > 0
    }

    /// A fresh cache: sentinel height, zeroed raw pair.
    pub fn new() -> (r: HeightCache)
        ensures
            r.spec_height() == SENTINEL_HEIGHT,
            r.spec_raw() == (0u8, 0u8),
            r.wf(),
    {
        HeightCache { height: SENTINEL_HEIGHT, raw_low: 0, raw_high: 0 }
    }

    /// Decode one raw sample against the previous estimate and store the
    /// decoded height together with the raw pair, in one update.
    pub fn record(&mut self, low: u8, high: u8)
        ensures
            final(self).spec_height() == spec_estimate_height(low, high, old(self).spec_height()),
            final(self).spec_raw() == (low, high),
            final(self).wf(),
            final(self).spec_has_sample(),
    {
        let decoded = estimate_height((low, high), self.height);
        self.height = decoded;
        self.raw_low = low;
        self.raw_high = high;
    }

    /// Reset the decoded height to the sentinel; the raw pair is kept.
    pub fn reset(&mut self)
        ensures
            final(self).spec_height() == SENTINEL_HEIGHT,
            final(self).spec_raw() == old(self).spec_raw(),
            final(self).wf(),
            !final(self).spec_has_sample(),
    {
        self.height = SENTINEL_HEIGHT;
    }

    /// The decoded height, or the sentinel.
    pub fn height(&self) -> (r: isize)
        ensures
            r == self.spec_height(),
    {
        self.height
    }

    /// The raw byte pair of the latest sample.
    pub fn raw_height(&self) -> (r: (u8, u8))
        ensures
            r == self.spec_raw(),
    {
        (self.raw_low, self.raw_high)
    }

    /// One untorn snapshot of the cache: the raw byte pair and the
    /// height decoded from it, read together.
    pub fn current_height(&self) -> (r: (u8, u8, isize))
        ensures
            (r.0, r.1) == self.spec_raw(),
            r.2 == self.spec_height(),
    {
        (self.raw_low, self.raw_high, self.height)
    }

    /// A height query observes the cache only once a fresh sample has
    /// arrived: the call returns a height exactly when one has been
    /// decoded since the last reset, and then returns that height.
    pub fn poll_sample(&self) -> (r: Option<isize>)
        ensures
            r is Some <==> self.spec_has_sample(),
            r is Some ==> r->0 == self.spec_height(),
    {
        if self.height > 0 {
            Some(self.height)
        } else {
            None
        }
    }
}

} // verus!
