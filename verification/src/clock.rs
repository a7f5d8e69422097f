//! The stopwatch itself: a running flag, the time accumulated while running,
//! and the laps taken so far.

use vstd::prelude::*;
use crate::span::Span;
use crate::driver::{clock_face, ClockText};
use crate::text::{clock_text, format_millis};

verus! {

/// What a stopwatch holds, as mathematics: times are nanoseconds.
pub struct ClockState {
    /// Whether time is accumulating.
    pub running: bool,
    /// The time accumulated so far.
    pub elapsed: nat,
    /// The laps, oldest first.
    pub laps: Seq<nat>,
}

/// One thing that can happen to a stopwatch.
pub enum ClockOp {
    /// A frame of the given length went by.
    Advance(nat),
    /// Pause or resume.
    Toggle,
    /// Record a lap.
    Lap,
}

impl ClockState {
    /// The stopwatch at startup: paused at zero, with no laps.
    pub open spec fn initial() -> ClockState {
        ClockState { running: false, elapsed: 0, laps: Seq::empty() }
    }

    /// No lap lies beyond the elapsed time.
    pub open spec fn wf(self) -> bool {
        forall|i: int| 0 <= i < self.laps.len() ==> self.laps[i] <= self.elapsed
    }

    /// After a frame of length `dt`: a running stopwatch has gained `dt`, a
    /// paused one is as it was.
    pub open spec fn advanced(self, dt: nat) -> ClockState {
        if self.running {
            ClockState { elapsed: self.elapsed + dt, ..self }
        } else {
            self
        }
    }

    /// After a pause or resume: the flag is flipped, nothing else.
    pub open spec fn toggled(self) -> ClockState {
        ClockState { running: !self.running, ..self }
    }

    /// After a lap: the elapsed time stands at the end of the laps.
    pub open spec fn lapped(self) -> ClockState {
        ClockState { laps: self.laps.push(self.elapsed), ..self }
    }

    /// After `op`.
    pub open spec fn apply(self, op: ClockOp) -> ClockState {
        match op {
            ClockOp::Advance(dt) => self.advanced(dt),
            ClockOp::Toggle => self.toggled(),
            ClockOp::Lap => self.lapped(),
        }
    }

    /// After each of `ops`, first to last.
    pub open spec fn apply_all(self, ops: Seq<ClockOp>) -> ClockState
        decreases ops.len(),
    {
        if ops.len() == 0 {
            self
        } else {
            self.apply_all(ops.drop_last()).apply(ops.last())
        }
    }

    /// After frames of the lengths `dts`, first to last.
    pub open spec fn advanced_all(self, dts: Seq<nat>) -> ClockState
        decreases dts.len(),
    {
        if dts.len() == 0 {
            self
        } else {
            self.advanced_all(dts.drop_last()).advanced(dts.last())
        }
    }

    /// After `count` laps in a row.
    pub open spec fn lapped_times(self, count: nat) -> ClockState
        decreases count,
    {
        if count == 0 {
            self
        } else {
            self.lapped_times((count - 1) as nat).lapped()
        }
    }

    /// The lines of the lap list: the heading, then each lap as a clock
    /// reading, the most recent first.
    pub open spec fn lap_lines(self) -> Seq<Seq<char>> {
        seq![laps_heading()] + Seq::new(
            self.laps.len(),
            |i: int| clock_text(self.laps[self.laps.len() - 1 - i] / 1_000_000),
        )
    }
}

/// The heading of the lap list.
pub open spec fn laps_heading() -> Seq<char> {
    seq!['L', 'a', 'p', 's', ':']
}

/// The sum of `dts`.
pub open spec fn total(dts: Seq<nat>) -> nat
    decreases dts.len(),
{
    if dts.len() == 0 {
        0
    } else {
        total(dts.drop_last()) + dts.last()
    }
}

/// The views of `laps`, in order.
pub open spec fn lap_times(laps: Seq<Span>) -> Seq<nat> {
    laps.map_values(|lap: Span| lap@)
}

/// The views of `lines`, in order.
pub open spec fn line_texts(lines: Seq<String>) -> Seq<Seq<char>> {
    lines.map_values(|line: String| line@)
}

/// A stopwatch.
#[derive(Debug)]
pub struct Clockwatch {
    running: bool,
    elapsed_time: Span,
    laps: Vec<Span>,
}

impl View for Clockwatch {
    type V = ClockState;

    closed spec fn view(&self) -> ClockState {
        ClockState {
            running: self.running,
            elapsed: self.elapsed_time@,
            laps: lap_times(self.laps@),
        }
    }
}

impl Clockwatch {
    /// No lap lies beyond the elapsed time.
    pub open spec fn wf(&self) -> bool {
        self@.wf()
    }

    /// A stopwatch paused at zero, with no laps.
    pub fn new() -> (clock: Clockwatch)
        ensures
            clock@ == ClockState::initial(),
            clock.wf(),
    {
        let clock = Clockwatch { running: false, elapsed_time: Span::zero(), laps: Vec::new() };
        assert(clock@.laps =~= Seq::empty());
        clock
    }

    /// Whether time is accumulating.
    pub fn is_running(&self) -> (running: bool)
        ensures
            running == self@.running,
    {
        self.running
    }

    /// The time accumulated so far.
    pub fn elapsed_time(&self) -> (elapsed: Span)
        ensures
            elapsed@ == self@.elapsed,
    {
        self.elapsed_time
    }

    /// The laps, oldest first.
    pub fn laps(&self) -> (laps: &Vec<Span>)
        ensures
            lap_times(laps@) == self@.laps,
    {
        &self.laps
    }

    /// Lets a frame of length `dt` go by: a running stopwatch gains `dt`, a
    /// paused one stays as it is.
    pub fn update(&mut self, dt: Span)
        requires
            old(self)@.running ==> old(self)@.elapsed + dt@ <= u128::MAX,
        ensures
            final(self)@ == old(self)@.advanced(dt@),
            old(self).wf() ==> final(self).wf(),
    {
        if self.running {
            self.elapsed_time = Span::from_nanos(self.elapsed_time.as_nanos() + dt.as_nanos());
        }
        assert(final(self)@.laps =~= old(self)@.laps);
    }

    /// Pauses a running stopwatch, resumes a paused one.
    pub fn toggle_start_pause(&mut self)
        ensures
            final(self)@ == old(self)@.toggled(),
            old(self).wf() ==> final(self).wf(),
    {
        self.running = !self.running;
        assert(final(self)@.laps =~= old(self)@.laps);
    }

    /// Records the elapsed time as the newest lap.
    pub fn lap(&mut self)
        ensures
            final(self)@ == old(self)@.lapped(),
            old(self).wf() ==> final(self).wf(),
    {
        self.laps.push(self.elapsed_time);
        assert(final(self)@.laps =~= old(self)@.laps.push(old(self)@.elapsed));
    }

    /// The clock reading of `dt`: hours, minutes, seconds and milliseconds,
    /// what is below a millisecond dropped.
    pub fn duration_into_text(dt: Span) -> (text: String)
        ensures
            text@ == clock_text(dt.millis()),
    {
        format_millis(dt.as_millis())
    }

    /// The clock reading of the elapsed time.
    pub fn clock_line(&self) -> (line: String)
        ensures
            line@ == clock_text(self@.elapsed / 1_000_000),
    {
        Clockwatch::duration_into_text(self.elapsed_time)
    }

    /// The lines of the lap list: the heading, then one reading for each
    /// lap, the most recent first.
    pub fn lap_lines(&self) -> (lines: Vec<String>)
        ensures
            line_texts(lines@) == self@.lap_lines(),
    {
        proof {
            reveal_strlit("Laps:");
        }
        let mut lines: Vec<String> = Vec::new();
        lines.push("Laps:".to_owned());
        assert("Laps:"@ =~= laps_heading());
        let count: usize = self.laps.len();
        let mut done: usize = 0;
        while done < count
            invariant
                count == self.laps.len(),
                done <= count,
                lines.len() == done + 1,
                lines[0]@ == laps_heading(),
                forall|i: int|
                    1 <= i <= done ==> (#[trigger] lines[i])@ == clock_text(
                        self.laps[count - i]@ / 1_000_000,
                    ),
            decreases count - done,
        {
            let lap = self.laps[count - 1 - done];
            let line = Clockwatch::duration_into_text(lap);
            lines.push(line);
            done = done + 1;
        }
        assert forall|i: int| 0 <= i < lines.len() implies line_texts(lines@)[i]
            == self@.lap_lines()[i] by {
            if i >= 1 {
                assert(self@.laps[count - i] == self.laps[count - i]@);
            }
        }
        assert(line_texts(lines@) =~= self@.lap_lines());
        lines
    }

    /// What the stopwatch shows: the clock reading and the lap list. The
    /// stopwatch is left as it is.
    pub fn render(&self) -> (face: ClockText)
        ensures
            face@ == clock_face(self@),
    {
        ClockText { clock: self.clock_line(), laps: self.lap_lines() }
    }
}

/// While the stopwatch is paused, frames that go by, however many and however
/// long, leave it exactly as it was.
pub proof fn law_paused_time_stands_still(clock: ClockState, dts: Seq<nat>)
    requires
        !clock.running,
    ensures
        clock.advanced_all(dts) == clock,
    decreases dts.len(),
{
    if dts.len() > 0 {
        law_paused_time_stands_still(clock, dts.drop_last());
    }
}

/// While the stopwatch is running, frames that go by add up: afterwards the
/// elapsed time is what it was plus the sum of their lengths, and the flag and
/// the laps are untouched.
pub proof fn law_running_time_adds_up(clock: ClockState, dts: Seq<nat>)
    requires
        clock.running,
    ensures
        clock.advanced_all(dts) == (ClockState { elapsed: clock.elapsed + total(dts), ..clock }),
    decreases dts.len(),
{
    if dts.len() > 0 {
        law_running_time_adds_up(clock, dts.drop_last());
    }
}

/// Two toggles in a row cancel: the flag is back where it was, and the elapsed
/// time and the laps never moved.
pub proof fn law_toggle_twice_is_identity(clock: ClockState)
    ensures
        clock.toggled().toggled() == clock,
        clock.toggled().elapsed == clock.elapsed,
        clock.toggled().laps == clock.laps,
{
}

/// A lap adds exactly one entry, the elapsed time, behind those already there,
/// and changes nothing else.
pub proof fn law_lap_appends_elapsed(clock: ClockState)
    ensures
        clock.lapped().laps.len() == clock.laps.len() + 1,
        clock.lapped().laps.last() == clock.elapsed,
        clock.lapped().laps.drop_last() == clock.laps,
        clock.lapped().running == clock.running,
        clock.lapped().elapsed == clock.elapsed,
{
    assert(clock.lapped().laps.drop_last() =~= clock.laps);
}

/// `count` laps in a row add `count` entries, each the elapsed time, behind
/// those already there: on a fresh stopwatch the list then has `count` entries.
pub proof fn law_laps_count(clock: ClockState, count: nat)
    ensures
        clock.lapped_times(count).laps == clock.laps + Seq::new(count, |i: int| clock.elapsed),
        clock.lapped_times(count).laps.len() == clock.laps.len() + count,
        clock.lapped_times(count).elapsed == clock.elapsed,
        clock.lapped_times(count).running == clock.running,
    decreases count,
{
    if count > 0 {
        law_laps_count(clock, (count - 1) as nat);
    }
    assert(clock.lapped_times(count).laps =~= clock.laps + Seq::new(
        count,
        |i: int| clock.elapsed,
    ));
}

/// Whatever happens to a stopwatch, in whatever order: the elapsed time never
/// goes back, the laps already taken stay as they are and where they are,
/// each new lap comes behind them, and no lap lies beyond the elapsed time.
pub proof fn law_history_is_kept(clock: ClockState, ops: Seq<ClockOp>)
    requires
        clock.wf(),
    ensures
        clock.apply_all(ops).wf(),
        clock.apply_all(ops).elapsed >= clock.elapsed,
        clock.laps.is_prefix_of(clock.apply_all(ops).laps),
    decreases ops.len(),
{
    if ops.len() > 0 {
        law_history_is_kept(clock, ops.drop_last());
    }
}

/// Only a toggle moves the running flag: after anything else it is as before.
pub proof fn law_only_toggle_moves_flag(clock: ClockState, op: ClockOp)
    requires
        op != ClockOp::Toggle,
    ensures
        clock.apply(op).running == clock.running,
{
}

} // verus!
