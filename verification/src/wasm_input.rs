//! The button source of the browser shell: a queue filled by the page.

use vstd::prelude::*;
use std::collections::VecDeque;
use crate::button::{Button, Event};
use crate::input::Input;

verus! {

pub struct WasmInput {
    events: VecDeque<(Button, Event)>,
}

impl WasmInput {
    pub fn new() -> (input: WasmInput)
        ensures
            input.wf(),
            input.pending() == Seq::<(Button, Event)>::empty(),
    {
        WasmInput { events: VecDeque::<(Button, Event)>::new() }
    }

    /// Queues the press of a button.
    pub fn press(&mut self, button: Button)
        ensures
            final(self).pending() == old(self).pending().push((button, Event::Press)),
    {
        self.events.push_back((button, Event::Press));
    }

    /// Queues the release of a button.
    pub fn release(&mut self, button: Button)
        ensures
            final(self).pending() == old(self).pending().push((button, Event::Release)),
    {
        self.events.push_back((button, Event::Release));
    }
}

impl Input for WasmInput {
    open spec fn wf(&self) -> bool {
        true
    }

    closed spec fn pending(&self) -> Seq<(Button, Event)> {
        self.events@
    }

    fn get_input(&mut self) -> (event: Option<(Button, Event)>) {
        if self.events.len() > 0 {
            self.events.pop_front()
        } else {
            None
        }
    }

    fn press(&mut self, button: Button) {
        self.events.push_back((button, Event::Press));
    }

    fn release(&mut self, button: Button) {
        self.events.push_back((button, Event::Release));
    }
}

} // verus!
