//! The buttons of the console and what can happen to them.

use vstd::prelude::*;

verus! {

/// A button of the console or of one of its two controllers.
#[derive(Clone, Copy, Debug)]
pub enum Button {
    Poweroff,
    Reset,
    Select,
    Start,
    Joypad1A,
    Joypad1B,
    Joypad1Up,
    Joypad1Down,
    Joypad1Left,
    Joypad1Right,
    Joypad2A,
    Joypad2B,
    Joypad2Up,
    Joypad2Down,
    Joypad2Left,
    Joypad2Right,
}

#[derive(Clone, Copy, Debug)]
pub enum Event {
    Press,
    Release,
}

} // verus!
