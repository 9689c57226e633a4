//! The playback clock: the state machine driven by the playback engine's
//! event stream, and the step the main loop runs on every poll.
//!
//! The main loop alternates between draining engine events with a short
//! bounded wait and, on a timeout, re-evaluating the beat grid.  An
//! `Error` or end-of-stream event makes the state terminal; a state
//! change reported for the tracked element flips the "currently audible"
//! flag that gates beat computation; a duration change invalidates the
//! cached duration so it is re-queried lazily.  The loop ends once the
//! clock is terminating, and the run counts as failed exactly when
//! termination was due to an engine error.

use vstd::prelude::*;
use crate::beat::Beat;
use crate::beat::MAX_POSITION_MS;
use crate::beat::SongHeader;
use crate::beat::beat_at;
use crate::beat::beat_num;
use crate::scheduler::LineScheduler;
use crate::scheduler::RedrawAction;

verus! {

/// The clock's state as a whole: idle until the engine first reports
/// playback, terminating once an error or the end of the stream arrived.
#[derive(Clone, Copy, Debug, PartialEq, Eq, Structural)]
pub enum PlaybackState {
    Idle,
    Playing,
    Terminating,
}

/// One event drained from the playback engine's bus, reduced to what the
/// transition table reads.
#[derive(Debug)]
pub enum EngineEvent {
    /// The engine reported a failure; its message is surfaced to the user.
    Error { message: String },
    /// The stream ended.
    EndOfStream,
    /// The stream duration changed; the cached value is now stale.
    DurationChanged,
    /// A state change on the bus.  `for_tracked_element` says whether it
    /// was reported for the element the clock tracks; only then does the
    /// audible flag follow `now_playing`.
    StateChanged { for_tracked_element: bool, now_playing: bool },
    /// Any other bus message; ignored.
    Other,
}

/// The playback clock's state, mutated only by the main thread.
#[derive(Debug)]
pub struct PlaybackClock {
    /// Whether the tracked element is currently audible; gates the beat
    /// computation on poll timeouts.
    pub playing: bool,
    /// Whether the main loop should stop.
    pub terminating: bool,
    /// Whether termination was caused by an engine error.
    pub failed: bool,
    /// Cached stream duration in milliseconds; `None` means invalidated,
    /// to be re-queried on next need.
    pub duration_ms: Option<u64>,
    /// The surfaced engine error message, if any.
    pub error_message: Option<String>,
}

/// The transition table: the clock state after applying one engine event.
pub open spec fn step_spec(pre: PlaybackClock, event: EngineEvent) -> PlaybackClock {
    match event {
        EngineEvent::Error { message } => PlaybackClock {
            terminating: true,
            failed: true,
            error_message: Option::Some(message),
            ..pre
        },
        EngineEvent::EndOfStream => PlaybackClock { terminating: true, ..pre },
        EngineEvent::DurationChanged => PlaybackClock { duration_ms: Option::None, ..pre },
        EngineEvent::StateChanged { for_tracked_element, now_playing } => PlaybackClock {
            playing: if for_tracked_element {
                now_playing
            } else {
                pre.playing
            },
            ..pre
        },
        EngineEvent::Other => pre,
    }
}

impl PlaybackClock {
    /// The clock's state as the three-valued machine.
    pub open spec fn state(self) -> PlaybackState {
        if self.terminating {
            PlaybackState::Terminating
        } else if self.playing {
            PlaybackState::Playing
        } else {
            PlaybackState::Idle
        }
    }

    /// A clock in its initial state: idle, nothing cached, no error.
    pub fn new() -> (c: PlaybackClock)
        ensures
            !c.playing,
            !c.terminating,
            !c.failed,
            c.duration_ms is None,
            c.error_message is None,
            c.state() == PlaybackState::Idle,
    {
        PlaybackClock {
            playing: false,
            terminating: false,
            failed: false,
            duration_ms: None,
            error_message: None,
        }
    }

    /// Apply one engine event according to the transition table.
    pub fn handle_message(&mut self, event: EngineEvent)
        ensures
            *final(self) == step_spec(*old(self), event),
    {
        match event {
            EngineEvent::Error { message } => {
                self.terminating = true;
                self.failed = true;
                self.error_message = Some(message);
            },
            EngineEvent::EndOfStream => {
                self.terminating = true;
            },
            EngineEvent::DurationChanged => {
                self.duration_ms = None;
            },
            EngineEvent::StateChanged { for_tracked_element, now_playing } => {
                if for_tracked_element {
                    self.playing = now_playing;
                }
            },
            EngineEvent::Other => {},
        }
    }

    /// Whether a poll timeout should run the beat step: only while the
    /// tracked element is audible and the clock is not terminating.
    pub fn should_step(&self) -> (r: bool)
        ensures
            r == (self.state() == PlaybackState::Playing),
    {
        self.playing && !self.terminating
    }

    /// Whether the cached duration is invalidated and due for a re-query.
    pub fn needs_duration(&self) -> (r: bool)
        ensures
            r == (self.duration_ms is None),
    {
        self.duration_ms.is_none()
    }

    /// Record the result of a duration query.
    pub fn set_duration(&mut self, duration_ms: Option<u64>)
        ensures
            *final(self) == (PlaybackClock { duration_ms, ..*old(self) }),
    {
        self.duration_ms = duration_ms;
    }
}

/// What one main-loop iteration asks of its caller.
#[derive(Debug)]
pub enum StepAction {
    /// An event was applied, or the timeout fired while nothing is
    /// audible: nothing to draw.
    Continue,
    /// The timeout fired during playback: the scheduler evaluated the
    /// computed beat and this is what to redraw.
    Redraw(RedrawAction),
}

/// The playback position the beat step uses: the queried position, or
/// zero while the engine cannot answer.
pub open spec fn position_or_zero(position_ms: Option<u64>) -> int {
    match position_ms {
        Option::Some(p) => p as int,
        Option::None => 0,
    }
}

/// One iteration of the main loop, after the bounded wait on the engine's
/// bus: apply the event if one arrived; otherwise, if the tracked element
/// is audible, map the queried position onto the beat grid and let the
/// scheduler decide what to redraw.
pub fn engine_step(
    clock: &mut PlaybackClock,
    sched: &mut LineScheduler,
    header: &SongHeader,
    event: Option<EngineEvent>,
    position_ms: Option<u64>,
) -> (a: StepAction)
    requires
        header.wf(),
        old(sched).wf(),
        position_ms is Some ==> position_ms->0 <= MAX_POSITION_MS,
    ensures
        final(sched).wf(),
        final(sched).lines == old(sched).lines,
        match event {
            Option::Some(e) => {
                &&& *final(clock) == step_spec(*old(clock), e)
                &&& *final(sched) == *old(sched)
                &&& a is Continue
            },
            Option::None => {
                &&& *final(clock) == *old(clock)
                &&& ({
                    let b = Beat {
                        num: beat_num(
                            position_or_zero(position_ms),
                            header.gap_ms as int,
                            header.bpm_millis as int,
                        ) as i64,
                    };
                    if old(clock).state() == PlaybackState::Playing {
                        &&& *final(sched) == old(sched).after_beat(b)
                        &&& a == StepAction::Redraw(old(sched).action_for(b))
                    } else {
                        &&& *final(sched) == *old(sched)
                        &&& a is Continue
                    }
                })
            },
        },
{
    match event {
        Some(e) => {
            clock.handle_message(e);
            StepAction::Continue
        },
        None => {
            if clock.should_step() {
                let pos = match position_ms {
                    Some(p) => p,
                    None => 0,
                };
                let b = beat_at(pos, header);
                let action = sched.on_beat(b);
                StepAction::Redraw(action)
            } else {
                StepAction::Continue
            }
        },
    }
}

} // verus!
