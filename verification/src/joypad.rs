//! A controller: eight buttons behind a one-bit strobe and a read index.

use vstd::prelude::*;
use crate::button;
use crate::bits::lemma_masks_u8;
use crate::register::Register;

verus! {

pub const BUTTON_NUM: u8 = 8;

/// The buttons of one controller, in the order in which they are read.
#[derive(Clone, Copy, Debug)]
pub enum Button {
    A,
    B,
    Select,
    Start,
    Up,
    Down,
    Left,
    Right,
}

/// The place of a button in the read order.
pub open spec fn button_index_spec(button: Button) -> int {
    match button {
        Button::A => 0,
        Button::B => 1,
        Button::Select => 2,
        Button::Start => 3,
        Button::Up => 4,
        Button::Down => 5,
        Button::Left => 6,
        Button::Right => 7,
    }
}

pub fn button_index(button: Button) -> (index: usize)
    ensures
        index == button_index_spec(button),
{
    match button {
        Button::A => 0,
        Button::B => 1,
        Button::Select => 2,
        Button::Start => 3,
        Button::Up => 4,
        Button::Down => 5,
        Button::Left => 6,
        Button::Right => 7,
    }
}

/// What a controller holds.
pub struct JoypadState {
    /// The byte last written to the controller's port.
    pub register: u8,
    /// The strobe latch, 0 or 1.
    pub latch: u8,
    /// The read index, 0 to 8; at 8 every button has been read.
    pub current_button: u8,
    /// Which buttons are down, by read order.
    pub buttons: Seq<bool>,
}

impl JoypadState {
    pub open spec fn wf(self) -> bool {
        &&& self.latch <= 1
        &&& self.current_button <= BUTTON_NUM
        &&& self.buttons.len() == BUTTON_NUM
    }

    /// A controller at power-on: nothing down, strobe low, index 0.
    pub open spec fn initial() -> JoypadState {
        JoypadState {
            register: 0,
            latch: 0,
            current_button: 0,
            buttons: Seq::new(BUTTON_NUM as nat, |i: int| false),
        }
    }

    /// The index that a read looks at: 0 while the strobe is high.
    pub open spec fn read_index(self) -> u8 {
        if self.latch == 1 {
            0
        } else {
            self.current_button
        }
    }

    /// The byte that a read returns: 1 once all buttons have been read or
    /// where the button looked at is down, else 0.
    pub open spec fn read_value(self) -> u8 {
        if self.read_index() >= BUTTON_NUM || self.buttons[self.read_index() as int] {
            1
        } else {
            0
        }
    }

    /// The controller after a read: the index has moved on by one, unless
    /// the strobe is high or every button has been read.
    pub open spec fn after_read(self) -> JoypadState {
        if self.latch == 1 || self.current_button >= BUTTON_NUM {
            self
        } else {
            JoypadState { current_button: (self.current_button + 1) as u8, ..self }
        }
    }

    /// The controller after a write to its port.
    pub open spec fn after_store(self, value: u8) -> JoypadState {
        JoypadState {
            register: value,
            latch: value & 1,
            current_button: if value & 1 == 1 {
                0
            } else {
                self.current_button
            },
            ..self
        }
    }

    pub open spec fn after_press(self, button: Button) -> JoypadState {
        JoypadState { buttons: self.buttons.update(button_index_spec(button), true), ..self }
    }

    pub open spec fn after_release(self, button: Button) -> JoypadState {
        JoypadState { buttons: self.buttons.update(button_index_spec(button), false), ..self }
    }

    pub open spec fn after_input(self, button: Button, event: button::Event) -> JoypadState {
        match event {
            button::Event::Press => self.after_press(button),
            button::Event::Release => self.after_release(button),
        }
    }

    /// The controller after `n` reads in a row.
    pub open spec fn after_reads(self, n: nat) -> JoypadState
        decreases n,
    {
        if n == 0 {
            self
        } else {
            self.after_reads((n - 1) as nat).after_read()
        }
    }
}

/// With the strobe low, the read index after `n` reads is the old index
/// plus `n`, stopping at 8, and nothing else has changed.
pub proof fn lemma_reads_advance(s: JoypadState, n: nat)
    requires
        s.wf(),
        s.latch == 0,
    ensures
        s.after_reads(n).wf(),
        s.after_reads(n).latch == 0,
        s.after_reads(n).buttons == s.buttons,
        s.after_reads(n).current_button == if s.current_button + n >= BUTTON_NUM {
            BUTTON_NUM as int
        } else {
            s.current_button + n
        },
    decreases n,
{
    if n > 0 {
        lemma_reads_advance(s, (n - 1) as nat);
    }
}

/// Once eight reads have been made with the strobe low, every further read
/// returns 1, whatever the buttons hold.
pub proof fn lemma_reads_past_the_buttons_return_one(s: JoypadState, n: nat)
    requires
        s.wf(),
        s.latch == 0,
        n >= BUTTON_NUM,
    ensures
        s.after_reads(n).read_value() == 1,
{
    lemma_reads_advance(s, n);
}

/// With the strobe low and the index at 0, the read number `i` (from 0)
/// returns 1 where button `i` is down and 0 where it is not.
pub proof fn lemma_read_reports_button(s: JoypadState, i: nat)
    requires
        s.wf(),
        s.latch == 0,
        s.current_button == 0,
        i < BUTTON_NUM,
    ensures
        s.after_reads(i).read_value() == if s.buttons[i as int] {
            1u8
        } else {
            0u8
        },
{
    lemma_reads_advance(s, i);
}

pub struct Joypad {
    register: Register<u8>,
    latch: u8,
    current_button: u8,
    buttons: [bool; 8],
}

impl Joypad {
    pub closed spec fn view(&self) -> JoypadState {
        JoypadState {
            register: self.register@,
            latch: self.latch,
            current_button: self.current_button,
            buttons: self.buttons@,
        }
    }

    pub fn new() -> (joypad: Joypad)
        ensures
            joypad@ == JoypadState::initial(),
            joypad@.wf(),
    {
        let joypad = Joypad {
            register: Register::<u8>::new(),
            latch: 0,
            current_button: 0,
            buttons: [false;8],
        };
        assert(joypad@.buttons =~= JoypadState::initial().buttons);
        joypad
    }

    pub fn handle_input(&mut self, button: Button, event: button::Event)
        requires
            old(self)@.wf(),
        ensures
            final(self)@ == old(self)@.after_input(button, event),
            final(self)@.wf(),
    {
        match event {
            button::Event::Press => self.press_button(button),
            button::Event::Release => self.release_button(button),
        };
    }

    /// Reads the controller's port.
    pub fn load_register(&mut self) -> (value: u8)
        requires
            old(self)@.wf(),
        ensures
            value == old(self)@.read_value(),
            final(self)@ == old(self)@.after_read(),
            final(self)@.wf(),
    {
        let button: u8 = if self.latch == 1 {
            0
        } else {
            let value = self.current_button;
            if self.current_button < BUTTON_NUM {
                self.current_button += 1;
            }
            value
        };
        if button >= BUTTON_NUM || self.buttons[button as usize] {
            1
        } else {
            0
        }
    }

    /// Writes the controller's port: bit 0 is the strobe.
    pub fn store_register(&mut self, value: u8)
        requires
            old(self)@.wf(),
        ensures
            final(self)@ == old(self)@.after_store(value),
            final(self)@.wf(),
    {
        proof {
            lemma_masks_u8(0, value, 0);
        }
        self.register.store(value);
        let strobe = value & 1;
        if strobe == 1 {
            self.current_button = 0;
        }
        self.latch = strobe;
    }

    pub fn press_button(&mut self, button: Button)
        requires
            old(self)@.wf(),
        ensures
            final(self)@ == old(self)@.after_press(button),
            final(self)@.wf(),
    {
        self.buttons[button_index(button)] = true;
    }

    pub fn release_button(&mut self, button: Button)
        requires
            old(self)@.wf(),
        ensures
            final(self)@ == old(self)@.after_release(button),
            final(self)@.wf(),
    {
        self.buttons[button_index(button)] = false;
    }
}

} // verus!
