//! Control core of a small environmental monitor: button debouncing, the
//! menu and clock-setting screens, the torn-read-free clock read, and the
//! per-minute log record.
use vstd::prelude::*;

pub mod input;
pub mod lcd;
pub mod logging;
pub mod readings;
pub mod rtc8564;
pub mod sc2004;
pub mod text;

verus! {

/// The screen the menu shows.
#[derive(Clone, Copy, Debug, PartialEq, Eq, Structural)]
pub enum ScreenState {
    Top,
    Elements,
    SetDateTime,
}

/// A button release, or none.
#[derive(Clone, Copy, Debug, PartialEq, Eq, Structural)]
pub enum SW {
    Center,
    Down,
    Left,
    Right,
    Up,
    NoEvent,
}

} // verus!
