//! Capture-analysis decisions: what a frame of raw microphone samples is
//! worth publishing as.
//!
//! The capture device hands the analyzer fixed-size frames of signed
//! 16-bit samples.  Normalized amplitude of a sample `x` is `x / 32767 * 2`,
//! so a frame's peak normalized amplitude is `2 * peak / 32767` where
//! `peak` is the largest sample magnitude.  A frame is silence unless that
//! peak strictly exceeds the threshold `1/10`: a peak of exactly one tenth
//! still counts as silence.  For a voiced frame the pitch-estimation
//! collaborator supplies the note; the analyzer publishes the outcome into
//! a single-slot mailbox that each cycle overwrites.

use vstd::prelude::*;

verus! {

/// A note letter of the twelve-tone scale.
#[derive(Clone, Copy, Debug, PartialEq, Eq, Structural)]
pub enum Letter {
    C,
    Csh,
    D,
    Dsh,
    E,
    F,
    Fsh,
    G,
    Gsh,
    A,
    Ash,
    B,
}

/// A musical pitch: a letter and its octave.
#[derive(Clone, Copy, Debug, PartialEq, Eq, Structural)]
pub struct NotePitch {
    pub letter: Letter,
    pub octave: i32,
}

/// The outcome of one capture cycle.  `peak` is the largest raw sample
/// magnitude of the frame; its normalized amplitude is `2 * peak / 32767`.
#[derive(Clone, Copy, Debug, PartialEq, Eq, Structural)]
pub enum DetectedPitch {
    Silence,
    Detected { pitch: NotePitch, peak: u16 },
}

/// Magnitude of a sample value.
pub open spec fn abs_val(s: int) -> int {
    if s < 0 {
        -s
    } else {
        s
    }
}

/// Largest sample magnitude of a frame; `0` for an empty frame.
pub open spec fn peak_spec(s: Seq<i16>) -> int
    decreases s.len(),
{
    if s.len() == 0 {
        0
    } else {
        let rest = peak_spec(s.drop_last());
        let a = abs_val(s.last() as int);
        if a > rest {
            a
        } else {
            rest
        }
    }
}

/// An amplitude given as the exact fraction `amp_num / amp_den` does not
/// strictly exceed the silence threshold of one tenth.
pub open spec fn silent_spec(amp_num: int, amp_den: int) -> bool {
    10 * amp_num <= amp_den
}

/// Whether the amplitude `amp_num / amp_den` is classified as silence.
/// The comparison is exact: silence holds unless the amplitude is
/// strictly greater than `1/10`, so exactly one tenth is still silence.
pub fn amplitude_is_silent(amp_num: u32, amp_den: u32) -> (r: bool)
    ensures
        r == silent_spec(amp_num as int, amp_den as int),
{
    10u64 * (amp_num as u64) <= amp_den as u64
}

/// The largest sample magnitude of `samples`.
pub fn frame_peak(samples: &Vec<i16>) -> (p: u16)
    ensures
        p == peak_spec(samples@),
        forall|i: int| 0 <= i < samples@.len() ==> abs_val(samples@[i] as int) <= p,
{
    let mut p: u16 = 0;
    let mut idx: usize = 0;
    while idx < samples.len()
        invariant
            idx <= samples@.len(),
            p == peak_spec(samples@.take(idx as int)),
            forall|i: int| 0 <= i < idx ==> abs_val(samples@[i] as int) <= p,
        decreases samples@.len() - idx,
    {
        let s = samples[idx];
        let a: u16 = if s < 0 {
            if s == i16::MIN {
                32768
            } else {
                (-s) as u16
            }
        } else {
            s as u16
        };
        proof {
            assert(a == abs_val(samples@[idx as int] as int));
            assert(samples@.take(idx + 1).drop_last() =~= samples@.take(idx as int));
            assert(samples@.take(idx + 1).last() == samples@[idx as int]);
        }
        if a > p {
            p = a;
        }
        idx += 1;
    }
    proof {
        assert(samples@.take(samples@.len() as int) =~= samples@);
    }
    p
}

/// Whether a frame is classified as silence: its peak normalized amplitude
/// `2 * peak / 32767` does not strictly exceed one tenth.
pub fn frame_is_silent(samples: &Vec<i16>) -> (r: bool)
    ensures
        r == silent_spec(2 * peak_spec(samples@), 32767),
{
    let p = frame_peak(samples);
    amplitude_is_silent(2 * (p as u32), 32767)
}

/// The single-slot mailbox that carries the latest detection from the
/// capture thread to the playback clock: a write overwrites whatever was
/// there, a read sees exactly the most recent write, and no history is
/// kept.
pub struct PitchMailbox {
    latest: DetectedPitch,
}

impl PitchMailbox {
    /// What the mailbox currently holds.
    pub closed spec fn slot(self) -> DetectedPitch {
        self.latest
    }

    /// A mailbox holding `initial` until the first publication.
    pub fn new(initial: DetectedPitch) -> (m: PitchMailbox)
        ensures
            m.slot() == initial,
    {
        PitchMailbox { latest: initial }
    }

    /// Overwrite the slot with this cycle's outcome.
    pub fn publish(&mut self, d: DetectedPitch)
        ensures
            final(self).slot() == d,
    {
        self.latest = d;
    }

    /// Read the most recently published outcome.
    pub fn read(&self) -> (d: DetectedPitch)
        ensures
            d == self.slot(),
    {
        self.latest
    }
}

} // verus!
