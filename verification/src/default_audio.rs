//! A loudspeaker that keeps the samples in a buffer until they are pulled.

use vstd::prelude::*;
use crate::audio::{Audio, AudioState, Sample, BUFFER_CAPACITY, CLIENT_BUFFER_LENGTH};

verus! {

pub struct DefaultAudio {
    buffer_index: usize,
    buffer: Vec<Sample>,
    previous_value: Sample,
    all: Ghost<Seq<Sample>>,
}

impl DefaultAudio {
    pub fn new() -> (audio: DefaultAudio)
        ensures
            audio.wf(),
            audio.state() == AudioState::initial(),
    {
        let zero = Sample { pulse1: 0, pulse2: 0, triangle: 0, noise: 0, dmc: 0 };
        let audio = DefaultAudio {
            buffer_index: 0,
            buffer: vec![zero; 8192],
            previous_value: zero,
            all: Ghost(Seq::empty()),
        };
        assert(audio.state().waiting =~= Seq::<Sample>::empty());
        audio
    }

    /// How many samples wait to be pulled.
    pub fn waiting(&self) -> (n: usize)
        requires
            self.wf(),
        ensures
            n == self.state().waiting.len(),
    {
        self.buffer_index
    }
}

impl Audio for DefaultAudio {
    closed spec fn wf(&self) -> bool {
        self.buffer@.len() == BUFFER_CAPACITY && self.buffer_index <= BUFFER_CAPACITY
    }

    closed spec fn state(&self) -> AudioState {
        AudioState {
            pushed: self.all@,
            waiting: self.buffer@.take(self.buffer_index as int),
            previous_value: self.previous_value,
        }
    }

    fn push(&mut self, value: Sample) {
        proof {
            self.all@ = self.all@.push(value);
        }
        if self.buffer_index >= BUFFER_CAPACITY {
            return ;
        }
        self.buffer[self.buffer_index] = value;
        self.buffer_index += 1;
        assert(self.state().waiting =~= old(self).state().waiting.push(value));
    }

    fn copy_sample_buffer(&mut self, sample_buffer: &mut [Sample]) {
        let ghost before = self.state();
        let mut i: usize = 0;
        while i < CLIENT_BUFFER_LENGTH
            invariant
                i <= CLIENT_BUFFER_LENGTH,
                self.all@ == old(self).all@,
                self.buffer@ == old(self).buffer@,
                self.buffer_index == old(self).buffer_index,
                self.wf(),
                before == old(self).state(),
                sample_buffer@.len() == old(sample_buffer)@.len(),
                sample_buffer@.len() >= CLIENT_BUFFER_LENGTH,
                self.previous_value == if i == 0 {
                    old(self).previous_value
                } else {
                    before.handed_over(i - 1)
                },
                forall|j: int| 0 <= j < i ==> sample_buffer@[j] == before.handed_over(j),
                forall|j: int|
                    i <= j < sample_buffer@.len() ==> sample_buffer@[j] == old(sample_buffer)@[j],
            decreases CLIENT_BUFFER_LENGTH - i,
        {
            let value = if i >= self.buffer_index {
                self.previous_value
            } else {
                self.buffer[i]
            };
            sample_buffer[i] = value;
            self.previous_value = value;
            i += 1;
        }
        assert(sample_buffer@ =~= before.pulled_into(old(sample_buffer)@));
        let mut k: usize = CLIENT_BUFFER_LENGTH;
        while k < BUFFER_CAPACITY
            invariant
                CLIENT_BUFFER_LENGTH <= k <= BUFFER_CAPACITY,
                self.all@ == old(self).all@,
                self.buffer@.len() == BUFFER_CAPACITY,
                old(self).buffer@.len() == BUFFER_CAPACITY,
                self.buffer_index == old(self).buffer_index,
                self.buffer_index <= BUFFER_CAPACITY,
                self.previous_value == before.handed_over(CLIENT_BUFFER_LENGTH - 1),
                before == old(self).state(),
                forall|j: int|
                    0 <= j < k - CLIENT_BUFFER_LENGTH ==> self.buffer@[j] == old(self).buffer@[j
                        + CLIENT_BUFFER_LENGTH],
                forall|j: int|
                    k - CLIENT_BUFFER_LENGTH <= j < BUFFER_CAPACITY ==> self.buffer@[j] == old(self).buffer@[j],
            decreases BUFFER_CAPACITY - k,
        {
            let value = self.buffer[k];
            self.buffer[k - CLIENT_BUFFER_LENGTH] = value;
            k += 1;
        }
        self.buffer_index = if self.buffer_index < CLIENT_BUFFER_LENGTH {
            0
        } else {
            self.buffer_index - CLIENT_BUFFER_LENGTH
        };
        assert(self.state().waiting =~= before.after_pull().waiting);
    }
}

} // verus!
