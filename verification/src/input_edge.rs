//! The semantics of edge-triggered input.
//!
//! The host's edge-triggered queries report a button relative to its
//! transitions rather than its level: pressed on the first frame the
//! button goes down, and, when a hold delay and repeat period are given,
//! again every `period` frames once the button has been held for more
//! than `hold` frames. A sentinel for either parameter suppresses the
//! repeat behavior entirely, leaving only the initial transition.
//!
//! This module states those semantics over a scripted history of raw
//! down states and provides an executable tracker proved against them,
//! so that guest logic and tests can be run against a synthetic input
//! source with the exact per-frame behavior.

use vstd::prelude::*;

verus! {

/// How many consecutive frames, ending at frame `t`, the button has been
/// down in the scripted history `h`.
pub open spec fn run_length(h: Seq<bool>, t: int) -> int
    decreases t,
{
    if t < 0 || t >= h.len() || !h[t] {
        0
    } else if t == 0 {
        1
    } else {
        run_length(h, t - 1) + 1
    }
}

/// Whether an edge-triggered query reports pressed for a button that has
/// been continuously down for `r` frames: on the first frame of the run,
/// and, when both a hold delay and a positive repeat period are given,
/// every `period` frames once the run exceeds `hold`.
pub open spec fn pressed_from_run(r: int, hold: int, period: int) -> bool {
    r == 1 || (hold >= 0 && period >= 1 && r > hold && (r - 1 - hold) % period == 0)
}

/// Whether an edge-triggered query reports pressed at frame `t` of the
/// scripted history `h`.
pub open spec fn edge_pressed(h: Seq<bool>, t: int, hold: int, period: int) -> bool {
    pressed_from_run(run_length(h, t), hold, period)
}

/// A run length is never negative and never longer than the prefix it
/// measures.
pub proof fn lemma_run_length_bounds(h: Seq<bool>, t: int)
    ensures
        0 <= run_length(h, t),
        t >= 0 ==> run_length(h, t) <= t + 1,
    decreases t,
{
    if !(t < 0 || t >= h.len() || !h[t]) && t > 0 {
        lemma_run_length_bounds(h, t - 1);
    }
}

/// A run ends exactly where the button is up.
pub proof fn lemma_run_length_zero(h: Seq<bool>, t: int)
    requires
        0 <= t < h.len(),
    ensures
        (run_length(h, t) == 0) == !h[t],
    decreases t,
{
    if t > 0 && h[t] {
        lemma_run_length_bounds(h, t - 1);
    }
}

/// With a sentinel hold or period, an edge-triggered query reports
/// pressed exactly on the frames where the raw state transitions from up
/// to down, and not-pressed on every other frame, for any scripted
/// history of raw press and release states.
pub proof fn lemma_sentinel_reports_transitions_only(h: Seq<bool>, t: int, hold: int, period: int)
    requires
        0 <= t < h.len(),
        hold < 0 || period < 1,
    ensures
        edge_pressed(h, t, hold, period) == (h[t] && (t == 0 || !h[t - 1])),
{
    lemma_run_length_zero(h, t);
    if t > 0 {
        lemma_run_length_zero(h, t - 1);
        lemma_run_length_bounds(h, t - 1);
    }
}

/// Tracks one button's run of consecutive down frames, mirroring the
/// counter the host keeps for its edge-triggered queries.
#[derive(Clone, Copy, Debug, PartialEq, Eq, Structural)]
pub struct ButtonTracker {
    /// Frames the button has been continuously down, including the
    /// current frame.
    pub run: u32,
}

impl ButtonTracker {
    /// A tracker for a button that has never been down.
    pub fn new() -> (r: ButtonTracker)
        ensures
            r.run == 0,
    {
        ButtonTracker { run: 0 }
    }

    /// Advances the tracker by one frame of raw input and reports what
    /// the edge-triggered query returns for that frame.
    pub fn step(&mut self, down: bool, hold: i32, period: i32) -> (pressed: bool)
        requires
            old(self).run < u32::MAX,
        ensures
            final(self).run == if down {
                old(self).run + 1
            } else {
                0
            },
            pressed == pressed_from_run(final(self).run as int, hold as int, period as int),
    {
        if down {
            self.run = self.run + 1;
        } else {
            self.run = 0;
        }
        if self.run == 1 {
            true
        } else if hold >= 0 && period >= 1 {
            let r_i: i64 = self.run as i64;
            let h_i: i64 = hold as i64;
            let p_i: i64 = period as i64;
            if r_i > h_i {
                (r_i - 1 - h_i) % p_i == 0
            } else {
                false
            }
        } else {
            false
        }
    }
}

/// Runs a tracker over a whole scripted history and returns, frame by
/// frame, what the edge-triggered query reports, exactly as the
/// per-frame semantics state it.
pub fn btnp_history(h: &Vec<bool>, hold: i32, period: i32) -> (out: Vec<bool>)
    requires
        h@.len() < u32::MAX,
    ensures
        out@.len() == h@.len(),
        forall|t: int|
            0 <= t < h@.len() ==> out@[t] == edge_pressed(h@, t, hold as int, period as int),
{
    let mut out: Vec<bool> = Vec::new();
    let mut tracker = ButtonTracker::new();
    let mut i: usize = 0;
    while i < h.len()
        invariant
            0 <= i <= h@.len(),
            h@.len() < u32::MAX,
            out@.len() == i,
            tracker.run == run_length(h@, i - 1),
            forall|t: int|
                0 <= t < i ==> out@[t] == edge_pressed(h@, t, hold as int, period as int),
        decreases h@.len() - i,
    {
        proof {
            lemma_run_length_bounds(h@, i - 1);
            assert(tracker.run < u32::MAX);
        }
        let pressed = tracker.step(h[i], hold, period);
        out.push(pressed);
        i += 1;
    }
    out
}

} // verus!
