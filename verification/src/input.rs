//! The button source: a queue of events that the console pulls from.

use vstd::prelude::*;
use crate::button::{Button, Event};

verus! {

/// A source of button events. It is known by the events that it still holds,
/// oldest first.
pub trait Input: Sized {
    spec fn wf(&self) -> bool;

    /// The events not yet pulled.
    spec fn pending(&self) -> Seq<(Button, Event)>;

    /// Pulls the oldest event; `None` exactly where none is pending.
    fn get_input(&mut self) -> (event: Option<(Button, Event)>)
        requires
            old(self).wf(),
        ensures
            final(self).wf(),
            match event {
                Some(e) => old(self).pending().len() > 0 && e == old(self).pending()[0] && final(self).pending() == old(self).pending().drop_first(),
                None => old(self).pending().len() == 0 && final(self).pending() == old(self).pending(),
            },
    ;

    fn press(&mut self, button: Button)
        requires
            old(self).wf(),
        ensures
            final(self).wf(),
            final(self).pending() == old(self).pending().push((button, Event::Press)),
    ;

    fn release(&mut self, button: Button)
        requires
            old(self).wf(),
        ensures
            final(self).wf(),
            final(self).pending() == old(self).pending().push((button, Event::Release)),
    ;
}

} // verus!
