//! A stopwatch: accumulated running time, pause and resume, lap splits,
//! and the text that a terminal front end paints each frame.

pub mod span;
pub mod text;
pub mod clock;
pub mod driver;

pub use crate::clock::Clockwatch;
pub use crate::driver::{App, Chrome, ClockText, Event, KeyCode, KeyEvent, KeyEventKind, KeyHint, Screen};
pub use crate::span::Span;
