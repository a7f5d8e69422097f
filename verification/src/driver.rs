//! The frame loop's decisions: what each key does, what one frame does to the
//! stopwatch, and what is to be painted afterwards.
//!
//! Reading the keyboard, reading the time and painting are the caller's part.
//! It hands in the time and the events of a frame, and gets back the text to
//! show.

use vstd::prelude::*;
use crate::clock::{line_texts, ClockState, Clockwatch};
use crate::span::{gap_between, Span};
use crate::text::clock_text;

verus! {

/// Which key an event is about.
#[derive(Clone, Copy, Debug, PartialEq, Eq, Structural)]
pub enum KeyCode {
    /// A key that stands for a character.
    Char(char),
    /// Any other key.
    Other,
}

/// What happened to the key.
#[derive(Clone, Copy, Debug, PartialEq, Eq, Structural)]
pub enum KeyEventKind {
    Press,
    Repeat,
    Release,
}

/// A key and what happened to it.
#[derive(Clone, Copy, Debug, PartialEq, Eq, Structural)]
pub struct KeyEvent {
    pub code: KeyCode,
    pub kind: KeyEventKind,
}

/// Something the terminal reported.
#[derive(Clone, Copy, Debug, PartialEq, Eq, Structural)]
pub enum Event {
    /// A key event.
    Key(KeyEvent),
    /// Anything else: the mouse, a resize, focus.
    Other,
}

/// What one pass of the loop is given: the time at its start and the events
/// that were pending then, oldest first.
pub struct FrameInput {
    pub now: nat,
    pub events: Seq<Event>,
}

/// What the driver holds, as mathematics.
pub struct AppState {
    /// The stopwatch.
    pub clock: ClockState,
    /// Whether the loop has ended.
    pub exit: bool,
    /// When the last frame began, in nanoseconds since the caller's origin.
    pub last_frame: nat,
}

impl AppState {
    /// After a press of the key `code`: `q` ends the loop, the space bar
    /// pauses or resumes, `l` records a lap, and no other key does anything.
    pub open spec fn key_pressed(self, code: KeyCode) -> AppState {
        match code {
            KeyCode::Char(c) => if c == 'q' {
                AppState { exit: true, ..self }
            } else if c == ' ' {
                AppState { clock: self.clock.toggled(), ..self }
            } else if c == 'l' {
                AppState { clock: self.clock.lapped(), ..self }
            } else {
                self
            },
            KeyCode::Other => self,
        }
    }

    /// After `event`: only the press of a key counts.
    pub open spec fn received(self, event: Event) -> AppState {
        match event {
            Event::Key(key_event) => if key_event.kind == KeyEventKind::Press {
                self.key_pressed(key_event.code)
            } else {
                self
            },
            Event::Other => self,
        }
    }

    /// After each of `events`, first to last.
    pub open spec fn received_all(self, events: Seq<Event>) -> AppState
        decreases events.len(),
    {
        if events.len() == 0 {
            self
        } else {
            self.received_all(events.drop_last()).received(events.last())
        }
    }

    /// After the stopwatch was advanced by `dt`.
    pub open spec fn updated(self, dt: nat) -> AppState {
        AppState { clock: self.clock.advanced(dt), ..self }
    }

    /// After one pass of the loop that begins at `now` with `events` pending.
    /// The time since the last frame is measured and the frame's start moved
    /// to `now`; then the events are handled; then the stopwatch is advanced
    /// by the measured time. Once the loop has ended nothing happens any more.
    pub open spec fn frame(self, now: nat, events: Seq<Event>) -> AppState {
        if self.exit {
            self
        } else {
            (AppState { last_frame: now, ..self }).received_all(events).updated(
                gap_between(self.last_frame, now),
            )
        }
    }

    /// After each of `frames`, first to last.
    pub open spec fn after_frames(self, frames: Seq<FrameInput>) -> AppState
        decreases frames.len(),
    {
        if frames.len() == 0 {
            self
        } else {
            let before = self.after_frames(frames.drop_last());
            before.frame(frames.last().now, frames.last().events)
        }
    }
}

/// What the stopwatch shows: the clock reading and the lap list.
#[derive(Debug)]
pub struct ClockText {
    /// The elapsed time as a clock reading.
    pub clock: String,
    /// The lines of the lap list: the heading, then the laps, newest first.
    pub laps: Vec<String>,
}

/// What the stopwatch shows, as mathematics.
pub struct ClockTextView {
    pub clock: Seq<char>,
    pub laps: Seq<Seq<char>>,
}

impl View for ClockText {
    type V = ClockTextView;

    open spec fn view(&self) -> ClockTextView {
        ClockTextView { clock: self.clock@, laps: line_texts(self.laps@) }
    }
}

/// What is shown for a stopwatch in the state `clock`.
pub open spec fn clock_face(clock: ClockState) -> ClockTextView {
    ClockTextView { clock: clock_text(clock.elapsed / 1_000_000), laps: clock.lap_lines() }
}

/// One key binding as the footer shows it.
#[derive(Debug)]
pub struct KeyHint {
    /// What the key does.
    pub label: String,
    /// How the key is written.
    pub key: String,
}

/// One key binding, as mathematics.
pub struct KeyHintView {
    pub label: Seq<char>,
    pub key: Seq<char>,
}

impl View for KeyHint {
    type V = KeyHintView;

    open spec fn view(&self) -> KeyHintView {
        KeyHintView { label: self.label@, key: self.key@ }
    }
}

/// The frame round the stopwatch: a title for the top border and the key
/// bindings for the bottom border.
#[derive(Debug)]
pub struct Chrome {
    pub title: String,
    pub hints: Vec<KeyHint>,
}

/// The frame round the stopwatch, as mathematics.
pub struct ChromeView {
    pub title: Seq<char>,
    pub hints: Seq<KeyHintView>,
}

impl View for Chrome {
    type V = ChromeView;

    open spec fn view(&self) -> ChromeView {
        ChromeView { title: self.title@, hints: self.hints@.map_values(|hint: KeyHint| hint@) }
    }
}

/// The title and the three key bindings, which never change.
pub open spec fn chrome() -> ChromeView {
    ChromeView {
        title: " Clockwatch rust app "@,
        hints: seq![
            KeyHintView { label: " Pause/Start "@, key: "<Space>"@ },
            KeyHintView { label: " Lap "@, key: "<l>"@ },
            KeyHintView { label: " Exit "@, key: "<q>"@ },
        ],
    }
}

/// All that one repaint shows.
#[derive(Debug)]
pub struct Screen {
    pub chrome: Chrome,
    pub body: ClockText,
}

/// The driver: the stopwatch, whether the loop has ended, and when the last
/// frame began.
#[derive(Debug)]
pub struct App {
    clock: Clockwatch,
    exit: bool,
    last_frame: Span,
}

impl View for App {
    type V = AppState;

    closed spec fn view(&self) -> AppState {
        AppState { clock: self.clock@, exit: self.exit, last_frame: self.last_frame@ }
    }
}

impl App {
    /// No lap of the stopwatch lies beyond its elapsed time.
    pub open spec fn wf(&self) -> bool {
        self@.clock.wf()
    }

    /// A driver whose first frame begins at `now`, with a fresh stopwatch.
    pub fn new(now: Span) -> (app: App)
        ensures
            app@ == (AppState { clock: ClockState::initial(), exit: false, last_frame: now@ }),
            app.wf(),
    {
        App { clock: Clockwatch::new(), exit: false, last_frame: now }
    }

    /// The stopwatch.
    pub fn clock(&self) -> (clock: &Clockwatch)
        ensures
            clock@ == self@.clock,
    {
        &self.clock
    }

    /// Whether the loop has ended.
    pub fn should_exit(&self) -> (exit: bool)
        ensures
            exit == self@.exit,
    {
        self.exit
    }

    /// When the last frame began.
    pub fn last_frame(&self) -> (at: Span)
        ensures
            at@ == self@.last_frame,
    {
        self.last_frame
    }

    /// Advances the stopwatch by `dt`.
    pub fn update(&mut self, dt: Span)
        requires
            old(self)@.clock.running ==> old(self)@.clock.elapsed + dt@ <= u128::MAX,
        ensures
            final(self)@ == old(self)@.updated(dt@),
            old(self).wf() ==> final(self).wf(),
    {
        self.clock.update(dt);
    }

    /// Acts on the press of a key: `q` ends the loop, the space bar pauses or
    /// resumes, `l` records a lap, any other key is ignored.
    pub fn handle_key_pressed_event(&mut self, key_event: KeyEvent)
        ensures
            final(self)@ == old(self)@.key_pressed(key_event.code),
            old(self).wf() ==> final(self).wf(),
    {
        match key_event.code {
            KeyCode::Char(c) => {
                if c == 'q' {
                    self.exit = true;
                } else if c == ' ' {
                    self.clock.toggle_start_pause();
                } else if c == 'l' {
                    self.clock.lap();
                }
            },
            KeyCode::Other => {},
        }
    }

    /// Handles the events that were pending, oldest first. Key presses are
    /// acted on; releases, repeats and everything that is no key are skipped.
    pub fn handle_events(&mut self, events: &Vec<Event>)
        ensures
            final(self)@ == old(self)@.received_all(events@),
            old(self).wf() ==> final(self).wf(),
    {
        let mut handled: usize = 0;
        while handled < events.len()
            invariant
                handled <= events.len(),
                self@ == old(self)@.received_all(events@.take(handled as int)),
                old(self).wf() ==> self.wf(),
            decreases events.len() - handled,
        {
            let event = events[handled];
            match event {
                Event::Key(key_event) => {
                    if key_event.kind == KeyEventKind::Press {
                        self.handle_key_pressed_event(key_event);
                    }
                },
                Event::Other => {},
            }
            assert(events@.take(handled + 1).drop_last() =~= events@.take(handled as int));
            handled = handled + 1;
        }
        assert(events@.take(handled as int) =~= events@);
    }

    /// One pass of the loop, which begins at `now` with `events` pending: the
    /// time since the last frame is measured, the events are handled, the
    /// stopwatch is advanced. Returns whether the pass took place, after which
    /// the screen is to be painted anew; once the loop has ended it never does.
    pub fn step(&mut self, now: Span, events: &Vec<Event>) -> (ran: bool)
        requires
            !old(self)@.exit ==> old(self)@.clock.elapsed + gap_between(
                old(self)@.last_frame,
                now@,
            ) <= u128::MAX,
        ensures
            ran == !old(self)@.exit,
            final(self)@ == old(self)@.frame(now@, events@),
            old(self).wf() ==> final(self).wf(),
    {
        if self.exit {
            return false;
        }
        let dt = now.saturating_since(self.last_frame);
        self.last_frame = now;
        proof {
            lemma_events_keep_time(self@, events@);
        }
        self.handle_events(events);
        self.update(dt);
        true
    }

    /// The title and the key bindings.
    pub fn render(&self) -> (frame: Chrome)
        ensures
            frame@ == chrome(),
    {
        let mut hints: Vec<KeyHint> = Vec::new();
        hints.push(KeyHint { label: " Pause/Start ".to_owned(), key: "<Space>".to_owned() });
        hints.push(KeyHint { label: " Lap ".to_owned(), key: "<l>".to_owned() });
        hints.push(KeyHint { label: " Exit ".to_owned(), key: "<q>".to_owned() });
        let frame = Chrome { title: " Clockwatch rust app ".to_owned(), hints };
        assert(frame@.hints =~= chrome().hints);
        frame
    }

    /// All that is to be painted: the stopwatch's text inside the frame. The
    /// driver is left as it is.
    pub fn draw(&self) -> (screen: Screen)
        ensures
            screen.chrome@ == chrome(),
            screen.body@ == clock_face(self@.clock),
    {
        Screen { chrome: self.render(), body: self.clock.render() }
    }
}

/// Events move neither the elapsed time nor the start of the frame, and keep
/// every lap within the elapsed time.
pub proof fn lemma_events_keep_time(app: AppState, events: Seq<Event>)
    ensures
        app.received_all(events).clock.elapsed == app.clock.elapsed,
        app.received_all(events).last_frame == app.last_frame,
        app.clock.wf() ==> app.received_all(events).clock.wf(),
    decreases events.len(),
{
    if events.len() > 0 {
        lemma_events_keep_time(app, events.drop_last());
    }
}

/// Only a press of the space bar moves the running flag: no other event
/// does, and neither does the time that a frame adds.
pub proof fn law_only_space_moves_flag(app: AppState, event: Event, dt: nat)
    requires
        event != (Event::Key(KeyEvent { code: KeyCode::Char(' '), kind: KeyEventKind::Press })),
    ensures
        app.received(event).clock.running == app.clock.running,
        app.updated(dt).clock.running == app.clock.running,
{
}

/// Once the loop has ended it stays ended, whatever events arrive.
pub proof fn law_exit_is_kept(app: AppState, events: Seq<Event>)
    requires
        app.exit,
    ensures
        app.received_all(events).exit,
    decreases events.len(),
{
    if events.len() > 0 {
        law_exit_is_kept(app, events.drop_last());
    }
}

/// A press of `q` ends the loop within its frame: the press sets the flag,
/// the rest of that frame keeps it set, and the stopwatch is not touched by
/// the press.
pub proof fn law_quit_ends_loop(app: AppState, now: nat, before: Seq<Event>, after: Seq<Event>)
    requires
        !app.exit,
    ensures
        app.key_pressed(KeyCode::Char('q')).exit,
        app.key_pressed(KeyCode::Char('q')).clock == app.clock,
        app.frame(now, before.push(quit_press()) + after).exit,
    decreases after.len(),
{
    let events = before.push(quit_press()) + after;
    let begun = AppState { last_frame: now, ..app };
    if after.len() == 0 {
        assert(events =~= before.push(quit_press()));
        assert(events.drop_last() =~= before);
    } else {
        law_quit_ends_loop(app, now, before, after.drop_last());
        assert(events.drop_last() =~= before.push(quit_press()) + after.drop_last());
    }
    assert(begun.received_all(events).exit);
}

/// The event that a press of `q` is.
pub open spec fn quit_press() -> Event {
    Event::Key(KeyEvent { code: KeyCode::Char('q'), kind: KeyEventKind::Press })
}

/// After the loop has ended no pass takes place: whatever frames are still
/// offered, nothing changes.
pub proof fn law_terminated_is_final(app: AppState, frames: Seq<FrameInput>)
    requires
        app.exit,
    ensures
        app.after_frames(frames) == app,
    decreases frames.len(),
{
    if frames.len() > 0 {
        law_terminated_is_final(app, frames.drop_last());
    }
}

} // verus!
