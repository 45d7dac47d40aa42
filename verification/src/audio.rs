//! The sound sink: what the console hands to a loudspeaker.
//!
//! A loudspeaker keeps the samples pushed to it in a buffer of fixed
//! capacity until the host pulls them, 4096 at a time.

use vstd::prelude::*;

verus! {

pub const BUFFER_CAPACITY: usize = 8192;

/// How many samples one pull hands over.
pub const CLIENT_BUFFER_LENGTH: usize = 4096;

/// The levels of the five channels at one moment: the two pulse channels,
/// triangle and noise from 0 to 15, the delta channel from 0 to 127.
#[derive(Clone, Copy, Debug)]
pub struct Sample {
    pub pulse1: u8,
    pub pulse2: u8,
    pub triangle: u8,
    pub noise: u8,
    pub dmc: u8,
}

/// The silent sample.
pub open spec fn silence() -> Sample {
    Sample { pulse1: 0, pulse2: 0, triangle: 0, noise: 0, dmc: 0 }
}

/// What a loudspeaker holds.
pub struct AudioState {
    /// Every sample pushed so far, oldest first.
    pub pushed: Seq<Sample>,
    /// The samples that wait to be pulled, oldest first.
    pub waiting: Seq<Sample>,
    /// The sample handed over last.
    pub previous_value: Sample,
}

impl AudioState {
    pub open spec fn wf(self) -> bool {
        self.waiting.len() <= BUFFER_CAPACITY
    }

    /// A loudspeaker that has taken nothing yet.
    pub open spec fn initial() -> AudioState {
        AudioState { pushed: Seq::empty(), waiting: Seq::empty(), previous_value: silence() }
    }

    /// A sample goes behind the waiting ones; a full buffer drops it.
    pub open spec fn after_push(self, value: Sample) -> AudioState {
        AudioState {
            pushed: self.pushed.push(value),
            waiting: if self.waiting.len() >= BUFFER_CAPACITY {
                self.waiting
            } else {
                self.waiting.push(value)
            },
            ..self
        }
    }

    /// The sample that a pull hands over at place `i`: the waiting sample
    /// where one waits there, else the last sample handed over before.
    pub open spec fn handed_over(self, i: int) -> Sample {
        if i < self.waiting.len() {
            self.waiting[i]
        } else if self.waiting.len() > 0 {
            self.waiting.last()
        } else {
            self.previous_value
        }
    }

    /// A buffer after a pull: its first `CLIENT_BUFFER_LENGTH` places hold
    /// what was handed over.
    pub open spec fn pulled_into(self, buffer: Seq<Sample>) -> Seq<Sample> {
        Seq::new(
            buffer.len(),
            |i: int|
                if i < CLIENT_BUFFER_LENGTH {
                    self.handed_over(i)
                } else {
                    buffer[i]
                },
        )
    }

    /// The loudspeaker after a pull: the samples handed over wait no more.
    pub open spec fn after_pull(self) -> AudioState {
        AudioState {
            waiting: if self.waiting.len() <= CLIENT_BUFFER_LENGTH {
                Seq::empty()
            } else {
                self.waiting.skip(CLIENT_BUFFER_LENGTH as int)
            },
            previous_value: self.handed_over(CLIENT_BUFFER_LENGTH - 1),
            ..self
        }
    }
}

/// A loudspeaker.
pub trait Audio: Sized {
    spec fn wf(&self) -> bool;

    /// What the loudspeaker holds.
    spec fn state(&self) -> AudioState;

    fn push(&mut self, value: Sample)
        requires
            old(self).wf(),
        ensures
            final(self).wf(),
            final(self).state() == old(self).state().after_push(value),
    ;

    /// Hands the oldest samples held over to `sample_buffer`.
    fn copy_sample_buffer(&mut self, sample_buffer: &mut [Sample])
        requires
            old(self).wf(),
            old(sample_buffer)@.len() >= CLIENT_BUFFER_LENGTH,
        ensures
            final(self).wf(),
            final(self).state() == old(self).state().after_pull(),
            final(sample_buffer)@ == old(self).state().pulled_into(old(sample_buffer)@),
    ;
}

} // verus!
