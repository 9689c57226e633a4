//! The line-transition scheduler: which lyric line is current, when the
//! display advances to the next one, and what is redrawn.
//!
//! Lines arrive once, ordered by non-decreasing start beat, and a
//! forward-only cursor walks them.  On every beat evaluation the scheduler
//! compares the beat against the next line's start.  Crossing it yields a
//! two-phase redraw: the outgoing line is drawn once more at an advanced
//! timestamp (one hundred grid positions ahead) so its highlighting is
//! forced into the "already passed" state, then the screen is cleared and
//! the new line is drawn.  Whether or not a transition happened, the
//! current line — if there is one — is drawn at the actual beat.  Once the
//! last line is current there is no next start to cross, so no further
//! transition ever fires.

use vstd::prelude::*;
use crate::beat::BEAT_SCALE;
use crate::beat::Beat;
use crate::capture::NotePitch;

verus! {

/// One sung note of a lyric line.
#[derive(Clone, Debug)]
pub struct Note {
    pub pitch: NotePitch,
    pub start: i32,
    pub duration: i32,
    pub syllable: String,
}

/// One lyric line: its start on the beat grid and its notes in order.
#[derive(Clone, Debug)]
pub struct Line {
    pub start: i32,
    pub notes: Vec<Note>,
}

/// A request to draw one line at one beat timestamp.
#[derive(Clone, Copy, Debug, PartialEq, Eq)]
pub struct DrawCommand {
    pub line_index: usize,
    pub at: Beat,
}

/// What one beat evaluation asks the renderer to do, in order: first the
/// stale-clear redraw of the outgoing line, then a full clear of the
/// screen, then the normal redraw of the current line.
#[derive(Clone, Copy, Debug, PartialEq, Eq)]
pub struct RedrawAction {
    pub stale_clear: Option<DrawCommand>,
    pub clear_screen: bool,
    pub redraw: Option<DrawCommand>,
}

/// The forward-only cursor over the song's lines.  `current` is the index
/// of the line on display; it is `None` exactly when the song has no
/// lines at all, and never moves backwards.
#[derive(Debug)]
pub struct LineScheduler {
    pub lines: Vec<Line>,
    pub current: Option<usize>,
}

impl LineScheduler {
    /// The cursor points at a line whenever there is one.
    pub open spec fn wf(self) -> bool {
        &&& self.lines@.len() <= usize::MAX
        &&& match self.current {
            Option::None => self.lines@.len() == 0,
            Option::Some(c) => c < self.lines@.len(),
        }
    }

    /// A line after the current one exists.
    pub open spec fn has_next(self) -> bool {
        self.current is Some && self.current->0 + 1 < self.lines@.len()
    }

    /// Start of the line after the current one, on the beat grid.
    pub open spec fn next_start(self) -> int
        recommends
            self.has_next(),
    {
        self.lines@[self.current->0 + 1].start as int
    }

    /// Whether evaluating at `b` crosses into the next line.  With no next
    /// line the threshold is treated as unreachable, so nothing fires.
    pub open spec fn fires(self, b: Beat) -> bool {
        self.has_next() && b.exceeds(self.next_start())
    }

    /// The cursor after evaluating at `b`: advanced by one if the
    /// transition fired, unchanged otherwise.
    pub open spec fn after_beat(self, b: Beat) -> LineScheduler {
        if self.fires(b) {
            LineScheduler { lines: self.lines, current: Option::Some((self.current->0 + 1) as usize) }
        } else {
            self
        }
    }

    /// The redraw request for evaluating at `b`: on a transition, a
    /// stale-clear of the outgoing line at `b` advanced one hundred grid
    /// positions and a full clear; always, a redraw of whichever line is
    /// current afterwards, at `b` itself.
    pub open spec fn action_for(self, b: Beat) -> RedrawAction {
        RedrawAction {
            stale_clear: if self.fires(b) {
                Option::Some(
                    DrawCommand {
                        line_index: self.current->0,
                        at: Beat { num: (b.num + 100 * BEAT_SCALE) as i64 },
                    },
                )
            } else {
                Option::None
            },
            clear_screen: self.fires(b),
            redraw: match self.after_beat(b).current {
                Option::Some(c) => Option::Some(DrawCommand { line_index: c, at: b }),
                Option::None => Option::None,
            },
        }
    }

    /// A scheduler starting at the first of `lines`, or idle when there
    /// are none.
    pub fn new(lines: Vec<Line>) -> (s: LineScheduler)
        ensures
            s.lines == lines,
            s.current == (if lines@.len() == 0 {
                Option::<usize>::None
            } else {
                Option::Some(0usize)
            }),
            s.wf(),
    {
        let current = if lines.len() == 0 {
            None
        } else {
            Some(0usize)
        };
        LineScheduler { lines, current }
    }

    /// The cursor is forward-only: a beat evaluation keeps it in place or
    /// moves it one line ahead, and never rewinds it or unsets it.
    pub proof fn lemma_cursor_forward(self, b: Beat)
        requires
            self.wf(),
        ensures
            self.after_beat(b).current is Some <==> self.current is Some,
            self.current is Some ==> self.current->0 <= self.after_beat(b).current->0
                <= self.current->0 + 1,
    {
    }

    /// Once the last line is current there is no next start to cross, so
    /// no beat moves the cursor any further.
    pub proof fn lemma_last_line_stays(self, b: Beat)
        requires
            self.wf(),
            self.current is Some,
            self.current->0 + 1 == self.lines@.len(),
        ensures
            self.after_beat(b) == self,
    {
    }

    /// One beat evaluation: advance the cursor if `b` has crossed the next
    /// line's start, and say what to redraw.
    pub fn on_beat(&mut self, b: Beat) -> (r: RedrawAction)
        requires
            old(self).wf(),
            b.num <= i64::MAX - 100 * BEAT_SCALE,
        ensures
            *final(self) == old(self).after_beat(b),
            final(self).wf(),
            r == old(self).action_for(b),
    {
        let mut stale: Option<DrawCommand> = None;
        let mut clear = false;
        match self.current {
            Some(c) => {
                let n = self.lines.len();
                if c + 1 < n {
                    let threshold = self.lines[c + 1].start;
                    if b.exceeds_grid(threshold) {
                        stale = Some(DrawCommand { line_index: c, at: b.advanced_by(100) });
                        self.current = Some(c + 1);
                        clear = true;
                    }
                }
            },
            None => {},
        }
        let redraw = match self.current {
            Some(c) => Some(DrawCommand { line_index: c, at: b }),
            None => None,
        };
        RedrawAction { stale_clear: stale, clear_screen: clear, redraw }
    }
}

} // verus!
