//! Renderer-ready frames and timestamp arithmetic.
//!
//! A frame is a packed BGRA pixel buffer together with its presentation time
//! expressed in nanoseconds from the start of the stream. The conversions
//! here turn container timebase units into nanoseconds with pure integer
//! arithmetic.

use vstd::prelude::*;

verus! {

/// One decoded video frame in packed BGRA form.
#[derive(Debug)]
pub struct VideoFrame {
    /// Packed pixels, 4 bytes per pixel, `width * height * 4` bytes in all.
    pub data: Vec<u8>,
    /// Frame width in pixels.
    pub width: u32,
    /// Frame height in pixels.
    pub height: u32,
    /// Presentation time in nanoseconds from stream start.
    pub timestamp: u64,
}

/// Nanoseconds, as an unbounded integer, that `pts` timebase units last:
/// `pts * num / den` seconds, rounded down to whole nanoseconds.
pub open spec fn spec_timestamp_nanos(pts: u64, num: u32, den: u32) -> int {
    (pts * num * 1_000_000_000) / (den as int)
}

/// Nanoseconds one timebase unit lasts, rounded down.
pub open spec fn spec_frame_duration_nanos(num: u32, den: u32) -> int {
    (num * 1_000_000_000) / (den as int)
}

/// Converts a presentation timestamp from container timebase units into
/// nanoseconds, saturating at the largest representable value.
pub fn timestamp_nanos(pts: u64, num: u32, den: u32) -> (r: u64)
    requires
        den > 0,
    ensures
        r == if spec_timestamp_nanos(pts, num, den) > u64::MAX {
            u64::MAX as int
        } else {
            spec_timestamp_nanos(pts, num, den)
        },
{
    proof {
        vstd::arithmetic::mul::lemma_mul_upper_bound(
            pts as int,
            u64::MAX as int,
            num as int,
            u32::MAX as int,
        );
        vstd::arithmetic::mul::lemma_mul_upper_bound(
            pts as int * num as int,
            u64::MAX as int * u32::MAX as int,
            1_000_000_000,
            1_000_000_000,
        );
    }
    let wide: u128 = pts as u128 * num as u128 * 1_000_000_000u128;
    let q: u128 = wide / (den as u128);
    if q > u64::MAX as u128 {
        u64::MAX
    } else {
        q as u64
    }
}

/// Duration of one frame in nanoseconds, derived from the container
/// timebase: one timestamp unit lasts `num / den` seconds.
pub fn frame_duration_nanos(num: u32, den: u32) -> (r: u64)
    requires
        den > 0,
    ensures
        r == spec_frame_duration_nanos(num, den),
{
    num as u64 * 1_000_000_000u64 / (den as u64)
}

} // verus!
