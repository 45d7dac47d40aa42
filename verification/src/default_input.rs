//! A button source that holds its events in a queue.

use vstd::prelude::*;
use std::collections::VecDeque;
use crate::button::{Button, Event};
use crate::input::Input;

verus! {

pub struct DefaultInput {
    events: VecDeque<(Button, Event)>,
}

impl DefaultInput {
    pub fn new() -> (input: DefaultInput)
        ensures
            input.wf(),
            input.pending() == Seq::<(Button, Event)>::empty(),
    {
        DefaultInput { events: VecDeque::<(Button, Event)>::new() }
    }
}

impl Input for DefaultInput {
    open spec fn wf(&self) -> bool {
        true
    }

    closed spec fn pending(&self) -> Seq<(Button, Event)> {
        self.events@
    }

    fn get_input(&mut self) -> (event: Option<(Button, Event)>) {
        if self.events.len() > 0 {
            self.events.pop_front()
        } else {
            None
        }
    }

    fn press(&mut self, button: Button) {
        self.events.push_back((button, Event::Press));
    }

    fn release(&mut self, button: Button) {
        self.events.push_back((button, Event::Release));
    }
}

} // verus!
