//! The beat grid: mapping a playback position in milliseconds onto the
//! quarter-beat coordinate system that lyric lines are scheduled in.
//!
//! The player's song format schedules lines on a grid of quarter beats:
//!
//! ```text
//! beat = (position_ms - gap_ms) * (bpm / 60 / 1000 * 4)
//! ```
//!
//! The factor `4` is intrinsic to the grid convention of existing song
//! files and must be kept exactly.  Instead of floating point, a beat is
//! held as an exact integer numerator over the fixed denominator
//! [`BEAT_SCALE`]: with the tempo in thousandths of a beat per minute,
//! `beat = (position_ms - gap_ms) * bpm_millis / 15_000_000`, so the
//! numerator `(position_ms - gap_ms) * bpm_millis` loses nothing.

use vstd::prelude::*;

verus! {

/// Denominator of the beat representation: a [`Beat`] with numerator `num`
/// stands for the exact quarter-beat count `num / BEAT_SCALE`.
pub const BEAT_SCALE: i64 = 15_000_000;

/// Largest playback position and lead-in gap, in milliseconds, that the
/// beat computation accepts (a little over three weeks of audio).
pub const MAX_POSITION_MS: u64 = 2_000_000_000;

/// Largest tempo, in thousandths of a beat per minute, that the beat
/// computation accepts (2000 bpm).
pub const MAX_BPM_MILLIS: u64 = 2_000_000;

/// Immutable metadata of the song being played, fixed once parsed.
///
/// `bpm_millis` is the tempo in thousandths of a beat per minute, so a
/// fractional tempo such as 246.25 bpm is held exactly as `246_250`.
/// `gap_ms` is the silent lead-in in milliseconds before beat zero.
#[derive(Debug)]
pub struct SongHeader {
    pub bpm_millis: u64,
    pub gap_ms: u64,
    pub audio_reference: String,
    pub title: String,
    pub artist: String,
}

impl SongHeader {
    /// A header the engine can run with: a positive tempo and both timing
    /// fields small enough that every beat numerator fits in an `i64`.
    pub open spec fn wf(self) -> bool {
        &&& 0 < self.bpm_millis <= MAX_BPM_MILLIS
        &&& self.gap_ms <= MAX_POSITION_MS
    }
}

/// An exact position on the quarter-beat grid: the value `num / BEAT_SCALE`.
/// Positions before the song's gap has elapsed are negative; they are valid
/// scheduler input and are never clamped.
#[derive(Clone, Copy, Debug, PartialEq, Eq, Structural)]
pub struct Beat {
    pub num: i64,
}

/// Numerator of the beat reached at `position_ms` in a song with the given
/// gap and tempo; the beat value itself is this over [`BEAT_SCALE`].
pub open spec fn beat_num(position_ms: int, gap_ms: int, bpm_millis: int) -> int {
    (position_ms - gap_ms) * bpm_millis
}

impl Beat {
    /// Whether this beat lies strictly beyond a whole-number grid position
    /// (a lyric line's start).
    pub open spec fn exceeds(self, threshold: int) -> bool {
        self.num > threshold * BEAT_SCALE
    }

    /// The exact grid position `b`, for tests and for sentinel arithmetic.
    pub fn from_grid(b: i32) -> (r: Beat)
        ensures
            r.num == b * BEAT_SCALE,
    {
        Beat { num: (b as i64) * BEAT_SCALE }
    }

    /// Whether this beat lies strictly beyond grid position `threshold`.
    pub fn exceeds_grid(&self, threshold: i32) -> (r: bool)
        ensures
            r == self.exceeds(threshold as int),
    {
        self.num > (threshold as i64) * BEAT_SCALE
    }

    /// This beat moved `delta` grid positions forward.
    pub fn advanced_by(&self, delta: i32) -> (r: Beat)
        requires
            i64::MIN <= self.num + delta * BEAT_SCALE <= i64::MAX,
        ensures
            r.num == self.num + delta * BEAT_SCALE,
    {
        Beat { num: self.num + (delta as i64) * BEAT_SCALE }
    }
}

/// The beat reached at `position_ms`, per the song's gap and tempo.
///
/// The result is exact: its numerator is `(position_ms - gap_ms) *
/// bpm_millis`, negative while the lead-in gap has not elapsed.
pub fn beat_at(position_ms: u64, header: &SongHeader) -> (b: Beat)
    requires
        header.wf(),
        position_ms <= MAX_POSITION_MS,
    ensures
        b.num == beat_num(position_ms as int, header.gap_ms as int, header.bpm_millis as int),
        -4_000_000_000_000_000 <= b.num <= 4_000_000_000_000_000,
{
    let diff: i64 = position_ms as i64 - header.gap_ms as i64;
    let bpm: i64 = header.bpm_millis as i64;
    proof {
        assert(-2_000_000_000 <= diff <= 2_000_000_000);
        assert(0 < bpm <= 2_000_000);
        assert(-4_000_000_000_000_000 <= diff * bpm <= 4_000_000_000_000_000) by (nonlinear_arith)
            requires
                -2_000_000_000 <= diff <= 2_000_000_000,
                0 < bpm <= 2_000_000,
        ;
    }
    Beat { num: diff * bpm }
}

/// The beat computation is linear in the playback position: moving the
/// position from `p2` to `p1` milliseconds moves the beat numerator by
/// `(p1 - p2) * bpm_millis`, a slope of `bpm_millis / BEAT_SCALE` — that is,
/// `bpm / 15000` — beats per millisecond; and at `position_ms == gap_ms` the
/// beat is exactly zero.
pub proof fn lemma_beat_linear(p1: int, p2: int, gap_ms: int, bpm_millis: int)
    ensures
        beat_num(p1, gap_ms, bpm_millis) - beat_num(p2, gap_ms, bpm_millis) == (p1 - p2)
            * bpm_millis,
        beat_num(gap_ms, gap_ms, bpm_millis) == 0,
{
    assert((p1 - gap_ms) * bpm_millis - (p2 - gap_ms) * bpm_millis == (p1 - p2) * bpm_millis)
        by (nonlinear_arith);
}

/// With a positive tempo the beat never runs backwards: a later playback
/// position maps to a beat at least as large.
pub proof fn lemma_beat_monotone(p1: int, p2: int, gap_ms: int, bpm_millis: int)
    requires
        p1 <= p2,
        bpm_millis >= 0,
    ensures
        beat_num(p1, gap_ms, bpm_millis) <= beat_num(p2, gap_ms, bpm_millis),
{
    assert((p1 - gap_ms) * bpm_millis <= (p2 - gap_ms) * bpm_millis) by (nonlinear_arith)
        requires
            p1 <= p2,
            bpm_millis >= 0,
    ;
}

} // verus!
