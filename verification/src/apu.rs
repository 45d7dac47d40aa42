//! The audio processing unit: two pulse channels, a triangle channel, a
//! noise channel and a delta modulation channel behind a frame sequencer.
//!
//! The unit is clocked once for each processor cycle. What it hands to the
//! loudspeaker is the level of each channel; mixing them into one signal
//! is left to the loudspeaker.

use vstd::prelude::*;
use crate::audio::{Audio, AudioState, Sample};
use crate::bits::{lemma_and_le_u8};
use crate::register::Register;

verus! {

/// The lengths that a length counter can be loaded with.
pub const LENGTH_TABLE: [u8; 32] = [
    0x0A, 0xFE, 0x14, 0x02, 0x28, 0x04, 0x50, 0x06, 0xA0, 0x08, 0x3C, 0x0A, 0x0E, 0x0C, 0x1A, 0x0E,
    0x0C, 0x10, 0x18, 0x12, 0x30, 0x14, 0x60, 0x16, 0xC0, 0x18, 0x48, 0x1A, 0x10, 0x1C, 0x20, 0x1E,
];

/// The four duty sequences of eight steps: 12.5%, 25%, 50% and 75%.
pub const DUTY_TABLE: [u8; 32] = [
    0, 1, 0, 0, 0, 0, 0, 0, 0, 1, 1, 0, 0, 0, 0, 0, 0, 1, 1, 1, 1, 0, 0, 0, 1, 0, 0, 1, 1, 1, 1, 1,
];

/// The triangle: from 15 down to 0 and up again.
pub const SEQUENCE_TABLE: [u8; 32] = [
    15, 14, 13, 12, 11, 10, 9, 8, 7, 6, 5, 4, 3, 2, 1, 0, 0, 1, 2, 3, 4, 5, 6, 7, 8, 9, 10, 11, 12,
    13, 14, 15,
];

pub const NOISE_TIMER_TABLE: [u16; 16] = [
    0x004, 0x008, 0x010, 0x020, 0x040, 0x060, 0x080, 0x0A0, 0x0CA, 0x0FE, 0x17C, 0x1FC, 0x2FA, 0x3F8,
    0x7F2, 0xFE4,
];

pub const DMC_TIMER_TABLE: [u16; 16] = [
    0x1AC, 0x17C, 0x154, 0x140, 0x11E, 0x0FE, 0x0E2, 0x0D6, 0x0BE, 0x0A0, 0x08E, 0x080, 0x06A, 0x054,
    0x048, 0x036,
];

/// Processor cycles between two samples.
pub const SAMPLE_PERIOD: u32 = 40;

/// Processor cycles between two steps of the frame sequencer.
pub const SEQUENCER_PERIOD: u32 = 7457;

/// The cycle counter counts modulo this.
pub const CYCLE_MODULUS: u32 = 0x100_0000;

proof fn lemma_register_fields(r: u8)
    by (bit_vector)
    ensures
        (r >> 6u8) & 0x03 <= 3,
        r & 0x0F <= 15,
        (r >> 4u8) & 0x07 <= 7,
        r & 0x07 <= 7,
        (r >> 3u8) & 0x1F <= 31,
        r & 0x7F <= 127,
        (((r & 0x07) as u16) << 8u8) <= 0x700,
        ((r as u16) << 6u8) | 0xC000 >= 0xC000,
{
}

/// The envelope shared by the pulse and noise channels: the counter after a clock.
pub open spec fn envelope_counter_after(start: bool, counter: u8, period: u8) -> u8 {
    if start || counter == 0 {
        period
    } else {
        (counter - 1) as u8
    }
}

/// The envelope shared by the pulse and noise channels: the decay level
/// after a clock. A start sets it to 15; else it falls by one each time
/// the counter runs out, and goes back to 15 from 0 where it loops.
pub open spec fn envelope_level_after(start: bool, counter: u8, level: u8, looping: bool) -> u8 {
    if start {
        0xF
    } else if counter > 0 {
        level
    } else if level > 0 {
        (level - 1) as u8
    } else if looping {
        0xF
    } else {
        level
    }
}

#[derive(Clone, Copy)]
pub enum ApuPulseChannel {
    Channel1,
    Channel2,
}

/// A pulse channel: timer, length counter, envelope and sweep.
pub struct ApuPulse {
    pub channel: ApuPulseChannel,
    pub register0: Register<u8>,
    pub register1: Register<u8>,
    pub register2: Register<u8>,
    pub register3: Register<u8>,
    pub enabled: bool,
    pub timer_counter: u16,
    pub timer_period: u16,
    /// The place in the duty sequence, 0 to 7.
    pub timer_sequence: u8,
    pub envelope_start_flag: bool,
    pub envelope_counter: u8,
    pub envelope_decay_level_counter: u8,
    pub length_counter: u8,
    pub sweep_reload_flag: bool,
    pub sweep_counter: u8,
}

impl ApuPulse {
    pub open spec fn wf(&self) -> bool {
        self.timer_sequence < 8
    }

    pub open spec fn initial(channel: ApuPulseChannel) -> ApuPulse {
        ApuPulse {
            channel,
            register0: Register { data: 0 },
            register1: Register { data: 0 },
            register2: Register { data: 0 },
            register3: Register { data: 0 },
            enabled: false,
            timer_counter: 0,
            timer_period: 0,
            timer_sequence: 0,
            envelope_start_flag: true,
            envelope_counter: 0,
            envelope_decay_level_counter: 0,
            length_counter: 0,
            sweep_reload_flag: false,
            sweep_counter: 0,
        }
    }

    // ---- the fields of the registers

    pub open spec fn duty_spec(&self) -> u8 {
        (self.register0@ >> 6u8) & 0x03
    }

    pub open spec fn envelope_loop_enabled_spec(&self) -> bool {
        self.register0@ & 0x20 != 0
    }

    pub open spec fn envelope_disabled_spec(&self) -> bool {
        self.register0@ & 0x10 != 0
    }

    pub open spec fn envelope_period_spec(&self) -> u8 {
        self.register0@ & 0x0F
    }

    pub open spec fn sweep_enabled_spec(&self) -> bool {
        self.register1@ & 0x80 != 0
    }

    pub open spec fn sweep_period_spec(&self) -> u8 {
        (self.register1@ >> 4u8) & 0x07
    }

    pub open spec fn negated_sweep_spec(&self) -> bool {
        self.register1@ & 0x08 != 0
    }

    pub open spec fn sweep_shift_amount_spec(&self) -> u8 {
        self.register1@ & 0x07
    }

    /// The 11-bit period that the registers hold.
    pub open spec fn timer_spec(&self) -> u16 {
        (((self.register3@ & 0x07) as u16) << 8u8) | self.register2@ as u16
    }

    pub open spec fn length_counter_index_spec(&self) -> u8 {
        (self.register3@ >> 3u8) & 0x1F
    }

    // ---- the operations

    pub open spec fn after_store_register(&self, address: u16, value: u8) -> ApuPulse {
        let v = Register { data: value };
        if address & 0x4003 == 0x4000 {
            ApuPulse { register0: v, ..*self }
        } else if address & 0x4003 == 0x4001 {
            ApuPulse { register1: v, sweep_reload_flag: true, ..*self }
        } else if address & 0x4003 == 0x4002 {
            let stored = ApuPulse { register2: v, ..*self };
            ApuPulse { timer_period: stored.timer_spec(), ..stored }
        } else if address & 0x4003 == 0x4003 {
            let stored = ApuPulse { register3: v, ..*self };
            ApuPulse {
                length_counter: if self.enabled {
                    LENGTH_TABLE[stored.length_counter_index_spec() as int]
                } else {
                    self.length_counter
                },
                timer_period: stored.timer_spec(),
                timer_sequence: 0,
                envelope_start_flag: true,
                ..stored
            }
        } else {
            *self
        }
    }

    /// Disabling the channel empties its length counter.
    pub open spec fn after_set_enable(&self, enabled: bool) -> ApuPulse {
        ApuPulse {
            enabled,
            length_counter: if enabled {
                self.length_counter
            } else {
                0
            },
            ..*self
        }
    }

    /// The timer counts down; when it runs out it starts again from the
    /// period and the duty sequence moves on by one step.
    pub open spec fn after_drive_timer(&self) -> ApuPulse {
        if self.timer_counter > 0 {
            ApuPulse { timer_counter: (self.timer_counter - 1) as u16, ..*self }
        } else {
            ApuPulse {
                timer_counter: self.timer_period,
                timer_sequence: if self.timer_sequence + 1 == 8 {
                    0
                } else {
                    (self.timer_sequence + 1) as u8
                },
                ..*self
            }
        }
    }

    pub open spec fn after_drive_length(&self) -> ApuPulse {
        if !self.envelope_loop_enabled_spec() && self.length_counter > 0 {
            ApuPulse { length_counter: (self.length_counter - 1) as u8, ..*self }
        } else {
            *self
        }
    }

    pub open spec fn after_drive_envelope(&self) -> ApuPulse {
        ApuPulse {
            envelope_counter: envelope_counter_after(
                self.envelope_start_flag,
                self.envelope_counter,
                self.envelope_period_spec(),
            ),
            envelope_decay_level_counter: envelope_level_after(
                self.envelope_start_flag,
                self.envelope_counter,
                self.envelope_decay_level_counter,
                self.envelope_loop_enabled_spec(),
            ),
            envelope_start_flag: false,
            ..*self
        }
    }

    /// Whether a clock of the sweep changes the period.
    pub open spec fn sweeps(&self) -> bool {
        self.sweep_counter == 0 && self.sweep_enabled_spec() && self.sweep_shift_amount_spec() != 0
            && 8 <= self.timer_period <= 0x7FF
    }

    /// What a sweep adds to the period, modulo 2^16: the period shifted
    /// right; negated, the first channel adds its ones' complement, the
    /// second its twos' complement.
    pub open spec fn sweep_change(&self) -> u16 {
        let change = self.timer_period >> self.sweep_shift_amount_spec();
        if self.negated_sweep_spec() {
            match self.channel {
                ApuPulseChannel::Channel1 => !change,
                ApuPulseChannel::Channel2 => (!change).wrapping_add(1),
            }
        } else {
            change
        }
    }

    pub open spec fn after_drive_sweep(&self) -> ApuPulse {
        ApuPulse {
            timer_period: if self.sweeps() {
                self.timer_period.wrapping_add(self.sweep_change())
            } else {
                self.timer_period
            },
            sweep_reload_flag: false,
            sweep_counter: if self.sweep_reload_flag || self.sweep_counter == 0 {
                self.sweep_period_spec()
            } else {
                (self.sweep_counter - 1) as u8
            },
            ..*self
        }
    }

    /// Whether the channel is silent: its length counter has run out, its
    /// period is below 8 or above 0x7FF, or the duty sequence is at a 0.
    pub open spec fn silent(&self) -> bool {
        self.length_counter == 0 || self.timer_period < 8 || self.timer_period > 0x7FF
            || DUTY_TABLE[self.duty_spec() * 8 + self.timer_sequence] == 0
    }

    /// The level of the channel, 0 to 15: the envelope period where the
    /// volume is constant, else the decay level.
    pub open spec fn output_spec(&self) -> u8 {
        if self.silent() {
            0
        } else if self.envelope_disabled_spec() {
            self.envelope_period_spec() & 0x0F
        } else {
            self.envelope_decay_level_counter & 0x0F
        }
    }

    pub fn new(channel: ApuPulseChannel) -> (pulse: ApuPulse)
        ensures
            pulse == ApuPulse::initial(channel),
            pulse.wf(),
    {
        ApuPulse {
            channel: channel,
            register0: Register::<u8>::new(),
            register1: Register::<u8>::new(),
            register2: Register::<u8>::new(),
            register3: Register::<u8>::new(),
            enabled: false,
            timer_counter: 0,
            timer_period: 0,
            timer_sequence: 0,
            envelope_start_flag: true,
            envelope_counter: 0,
            envelope_decay_level_counter: 0,
            length_counter: 0,
            sweep_reload_flag: false,
            sweep_counter: 0,
        }
    }

    pub fn store_register(&mut self, address: u16, value: u8)
        requires
            old(self).wf(),
        ensures
            final(self).wf(),
            *final(self) == old(self).after_store_register(address, value),
    {
        let select = address & 0x4003;
        if select == 0x4000 {
            self.register0.store(value);
        } else if select == 0x4001 {
            self.register1.store(value);
            self.sweep_reload_flag = true;
        } else if select == 0x4002 {
            self.register2.store(value);
            self.timer_period = self.timer();
        } else if select == 0x4003 {
            self.register3.store(value);
            if self.enabled {
                self.length_counter = LENGTH_TABLE[self.length_counter_index() as usize];
            }
            self.timer_period = self.timer();
            self.timer_sequence = 0;
            self.envelope_start_flag = true;
        }
    }

    pub fn set_enable(&mut self, enabled: bool)
        ensures
            *final(self) == old(self).after_set_enable(enabled),
            old(self).wf() ==> final(self).wf(),
    {
        self.enabled = enabled;
        if !enabled {
            self.length_counter = 0;
        }
    }

    pub fn drive_timer(&mut self)
        requires
            old(self).wf(),
        ensures
            final(self).wf(),
            *final(self) == old(self).after_drive_timer(),
    {
        if self.timer_counter > 0 {
            self.timer_counter -= 1;
        } else {
            self.timer_counter = self.timer_period;
            self.timer_sequence += 1;
            if self.timer_sequence == 8 {
                self.timer_sequence = 0
            }
        }
    }

    pub fn drive_length(&mut self)
        ensures
            *final(self) == old(self).after_drive_length(),
            old(self).wf() ==> final(self).wf(),
    {
        if !self.envelope_loop_enabled() && self.length_counter > 0 {
            self.length_counter -= 1;
        }
    }

    pub fn drive_envelope(&mut self)
        ensures
            *final(self) == old(self).after_drive_envelope(),
            old(self).wf() ==> final(self).wf(),
    {
        if self.envelope_start_flag {
            self.envelope_counter = self.envelope_period();
            self.envelope_decay_level_counter = 0xF;
            self.envelope_start_flag = false;
            return ;
        }
        if self.envelope_counter > 0 {
            self.envelope_counter -= 1;
        } else {
            self.envelope_counter = self.envelope_period();
            if self.envelope_decay_level_counter > 0 {
                self.envelope_decay_level_counter -= 1;
            } else if self.envelope_decay_level_counter == 0 && self.envelope_loop_enabled() {
                self.envelope_decay_level_counter = 0xF;
            }
        }
    }

    pub fn drive_sweep(&mut self)
        ensures
            *final(self) == old(self).after_drive_sweep(),
            old(self).wf() ==> final(self).wf(),
    {
        if self.sweep_counter == 0 && self.sweep_enabled() && self.sweep_shift_amount() != 0
            && self.timer_period >= 8 && self.timer_period <= 0x7FF {
            let change = self.timer_period >> self.sweep_shift_amount();
            let delta: u16 = if self.negated_sweep() {
                match self.channel {
                    ApuPulseChannel::Channel1 => !change,
                    ApuPulseChannel::Channel2 => (!change).wrapping_add(1),
                }
            } else {
                change
            };
            self.timer_period = self.timer_period.wrapping_add(delta);
        }
        if self.sweep_reload_flag || self.sweep_counter == 0 {
            self.sweep_reload_flag = false;
            self.sweep_counter = self.sweep_period();
        } else {
            self.sweep_counter -= 1;
        }
    }

    pub fn output(&self) -> (level: u8)
        requires
            self.wf(),
        ensures
            level == self.output_spec(),
            level <= 15,
    {
        proof {
            lemma_and_le_u8(self.envelope_period_spec(), 0x0F);
            lemma_and_le_u8(self.envelope_decay_level_counter, 0x0F);
        }
        if self.length_counter == 0 || self.timer_period < 8 || self.timer_period > 0x7FF
            || DUTY_TABLE[(self.duty() * 8 + self.timer_sequence) as usize] == 0 {
            return 0;
        }
        if self.envelope_disabled() {
            self.envelope_period() & 0x0F
        } else {
            self.envelope_decay_level_counter & 0x0F
        }
    }

    pub fn duty(&self) -> (duty: u8)
        ensures
            duty == self.duty_spec(),
            duty <= 3,
    {
        proof {
            lemma_register_fields(self.register0@);
        }
        self.register0.load_bits(6, 2)
    }

    pub fn envelope_loop_enabled(&self) -> (enabled: bool)
        ensures
            enabled == self.envelope_loop_enabled_spec(),
    {
        self.register0.is_bit_set(5)
    }

    pub fn envelope_disabled(&self) -> (disabled: bool)
        ensures
            disabled == self.envelope_disabled_spec(),
    {
        self.register0.is_bit_set(4)
    }

    pub fn envelope_period(&self) -> (period: u8)
        ensures
            period == self.envelope_period_spec(),
    {
        self.register0.load_bits(0, 4)
    }

    pub fn sweep_enabled(&self) -> (enabled: bool)
        ensures
            enabled == self.sweep_enabled_spec(),
    {
        self.register1.is_bit_set(7)
    }

    pub fn sweep_period(&self) -> (period: u8)
        ensures
            period == self.sweep_period_spec(),
    {
        self.register1.load_bits(4, 3)
    }

    pub fn negated_sweep(&self) -> (negated: bool)
        ensures
            negated == self.negated_sweep_spec(),
    {
        self.register1.is_bit_set(3)
    }

    pub fn sweep_shift_amount(&self) -> (amount: u8)
        ensures
            amount == self.sweep_shift_amount_spec(),
            amount <= 7,
    {
        proof {
            lemma_register_fields(self.register1@);
        }
        self.register1.load_bits(0, 3)
    }

    pub fn timer_low(&self) -> (low: u8)
        ensures
            low == self.register2@,
    {
        self.register2.load()
    }

    pub fn timer_high(&self) -> (high: u8)
        ensures
            high == self.register3@ & 0x07,
    {
        self.register3.load_bits(0, 3)
    }

    pub fn timer(&self) -> (period: u16)
        ensures
            period == self.timer_spec(),
    {
        ((self.timer_high() as u16) << 8u8) | self.timer_low() as u16
    }

    pub fn length_counter_index(&self) -> (index: u8)
        ensures
            index == self.length_counter_index_spec(),
            index < 32,
    {
        proof {
            lemma_register_fields(self.register3@);
        }
        self.register3.load_bits(3, 5)
    }
}

/// The triangle channel: timer, length counter and linear counter.
pub struct ApuTriangle {
    pub register0: Register<u8>,
    pub register1: Register<u8>,
    pub register2: Register<u8>,
    pub register3: Register<u8>,
    pub enabled: bool,
    pub timer_counter: u16,
    /// The place in the triangle, 0 to 31.
    pub timer_sequence: u8,
    pub length_counter: u8,
    pub linear_reload_flag: bool,
    pub linear_counter: u8,
}

impl ApuTriangle {
    pub open spec fn wf(&self) -> bool {
        self.timer_sequence < 32
    }

    pub open spec fn initial() -> ApuTriangle {
        ApuTriangle {
            register0: Register { data: 0 },
            register1: Register { data: 0 },
            register2: Register { data: 0 },
            register3: Register { data: 0 },
            enabled: false,
            timer_counter: 0,
            timer_sequence: 0,
            length_counter: 0,
            linear_reload_flag: false,
            linear_counter: 0,
        }
    }

    pub open spec fn linear_counter_spec(&self) -> u8 {
        self.register0@ & 0x7F
    }

    pub open spec fn length_counter_disabled_spec(&self) -> bool {
        self.register0@ & 0x80 != 0
    }

    pub open spec fn length_counter_index_spec(&self) -> u8 {
        (self.register3@ >> 3u8) & 0x1F
    }

    /// The 11-bit period that the registers hold.
    pub open spec fn timer_spec(&self) -> u16 {
        (((self.register3@ & 0x07) as u16) << 8u8) | self.register2@ as u16
    }

    pub open spec fn after_store_register(&self, address: u16, value: u8) -> ApuTriangle {
        let v = Register { data: value };
        if address == 0x4008 {
            ApuTriangle { register0: v, ..*self }
        } else if address == 0x4009 {
            ApuTriangle { register1: v, ..*self }
        } else if address == 0x400A {
            ApuTriangle { register2: v, ..*self }
        } else if address == 0x400B {
            let stored = ApuTriangle { register3: v, ..*self };
            ApuTriangle {
                length_counter: if self.enabled {
                    LENGTH_TABLE[stored.length_counter_index_spec() as int]
                } else {
                    self.length_counter
                },
                linear_reload_flag: true,
                ..stored
            }
        } else {
            *self
        }
    }

    pub open spec fn after_set_enable(&self, enabled: bool) -> ApuTriangle {
        ApuTriangle {
            enabled,
            length_counter: if enabled {
                self.length_counter
            } else {
                0
            },
            ..*self
        }
    }

    /// The timer counts down; when it runs out it starts again from the
    /// period, and the triangle moves on by one step where neither the
    /// length counter nor the linear counter has run out.
    pub open spec fn after_drive_timer(&self) -> ApuTriangle {
        if self.timer_counter > 0 {
            ApuTriangle { timer_counter: (self.timer_counter - 1) as u16, ..*self }
        } else {
            ApuTriangle {
                timer_counter: self.timer_spec(),
                timer_sequence: if self.length_counter > 0 && self.linear_counter > 0 {
                    if self.timer_sequence + 1 == 32 {
                        0
                    } else {
                        (self.timer_sequence + 1) as u8
                    }
                } else {
                    self.timer_sequence
                },
                ..*self
            }
        }
    }

    pub open spec fn after_drive_linear(&self) -> ApuTriangle {
        ApuTriangle {
            linear_counter: if self.linear_reload_flag {
                self.linear_counter_spec()
            } else if self.linear_counter > 0 {
                (self.linear_counter - 1) as u8
            } else {
                self.linear_counter
            },
            linear_reload_flag: self.linear_reload_flag && self.length_counter_disabled_spec(),
            ..*self
        }
    }

    pub open spec fn after_drive_length(&self) -> ApuTriangle {
        if !self.length_counter_disabled_spec() && self.length_counter > 0 {
            ApuTriangle { length_counter: (self.length_counter - 1) as u8, ..*self }
        } else {
            *self
        }
    }

    /// The level of the channel, 0 to 15; zero where the channel is
    /// disabled, a counter has run out or the period is below 2.
    pub open spec fn output_spec(&self) -> u8 {
        if !self.enabled || self.length_counter == 0 || self.linear_counter == 0
            || self.timer_spec() < 2 {
            0
        } else {
            SEQUENCE_TABLE[self.timer_sequence as int] & 0xF
        }
    }

    pub fn new() -> (triangle: ApuTriangle)
        ensures
            triangle == ApuTriangle::initial(),
            triangle.wf(),
    {
        ApuTriangle {
            register0: Register::<u8>::new(),
            register1: Register::<u8>::new(),
            register2: Register::<u8>::new(),
            register3: Register::<u8>::new(),
            enabled: false,
            timer_counter: 0,
            timer_sequence: 0,
            length_counter: 0,
            linear_reload_flag: false,
            linear_counter: 0,
        }
    }

    pub fn store_register(&mut self, address: u16, value: u8)
        ensures
            *final(self) == old(self).after_store_register(address, value),
            old(self).wf() ==> final(self).wf(),
    {
        if address == 0x4008 {
            self.register0.store(value);
        } else if address == 0x4009 {
            self.register1.store(value);
        } else if address == 0x400A {
            self.register2.store(value);
        } else if address == 0x400B {
            self.register3.store(value);
            if self.enabled {
                self.length_counter = LENGTH_TABLE[self.length_counter_index() as usize];
            }
            self.linear_reload_flag = true;
        }
    }

    pub fn set_enable(&mut self, enabled: bool)
        ensures
            *final(self) == old(self).after_set_enable(enabled),
            old(self).wf() ==> final(self).wf(),
    {
        self.enabled = enabled;
        if !enabled {
            self.length_counter = 0;
        }
    }

    pub fn drive_timer(&mut self)
        requires
            old(self).wf(),
        ensures
            final(self).wf(),
            *final(self) == old(self).after_drive_timer(),
    {
        if self.timer_counter > 0 {
            self.timer_counter -= 1;
        } else {
            self.timer_counter = self.timer();
            if self.length_counter > 0 && self.linear_counter > 0 {
                self.timer_sequence += 1;
                if self.timer_sequence == 32 {
                    self.timer_sequence = 0;
                }
            }
        }
    }

    pub fn drive_linear(&mut self)
        ensures
            *final(self) == old(self).after_drive_linear(),
            old(self).wf() ==> final(self).wf(),
    {
        if self.linear_reload_flag {
            self.linear_counter = self.linear_counter();
        } else if self.linear_counter > 0 {
            self.linear_counter -= 1;
        }
        if !self.length_counter_disabled() {
            self.linear_reload_flag = false;
        }
    }

    pub fn drive_length(&mut self)
        ensures
            *final(self) == old(self).after_drive_length(),
            old(self).wf() ==> final(self).wf(),
    {
        if !self.length_counter_disabled() && self.length_counter > 0 {
            self.length_counter -= 1;
        }
    }

    pub fn output(&self) -> (level: u8)
        requires
            self.wf(),
        ensures
            level == self.output_spec(),
            level <= 15,
    {
        proof {
            lemma_and_le_u8(SEQUENCE_TABLE[self.timer_sequence as int], 0xF);
        }
        if !self.enabled || self.length_counter == 0 || self.linear_counter == 0 || self.timer()
            < 2 {
            return 0;
        }
        return SEQUENCE_TABLE[self.timer_sequence as usize] & 0xF;
    }

    pub fn linear_counter(&self) -> (counter: u8)
        ensures
            counter == self.linear_counter_spec(),
    {
        self.register0.load_bits(0, 7)
    }

    pub fn length_counter_disabled(&self) -> (disabled: bool)
        ensures
            disabled == self.length_counter_disabled_spec(),
    {
        self.register0.is_bit_set(7)
    }

    pub fn timer_low(&self) -> (low: u8)
        ensures
            low == self.register2@,
    {
        self.register2.load()
    }

    pub fn length_counter_index(&self) -> (index: u8)
        ensures
            index == self.length_counter_index_spec(),
            index < 32,
    {
        proof {
            lemma_register_fields(self.register3@);
        }
        self.register3.load_bits(3, 5)
    }

    pub fn timer_high(&self) -> (high: u8)
        ensures
            high == self.register3@ & 0x07,
    {
        self.register3.load_bits(0, 3)
    }

    pub fn timer(&self) -> (period: u16)
        ensures
            period == self.timer_spec(),
    {
        ((self.timer_high() as u16) << 8u8) | self.timer_low() as u16
    }
}

/// The shift register of the noise channel after a clock: the feedback,
/// bit 0 xor bit 6 in short mode and bit 0 xor bit 1 otherwise, comes in at
/// bit 14 while the rest moves down.
pub open spec fn noise_shifted(shift_register: u16, short_mode: bool) -> u16 {
    let tap: u8 = if short_mode {
        6
    } else {
        1
    };
    let feedback = (shift_register & 1) ^ ((shift_register >> tap) & 1);
    ((feedback as u16) << 14u8) | (shift_register >> 1u8)
}

/// A shift register that holds a 15-bit value other than zero holds one
/// after a clock too.
pub proof fn lemma_noise_register_never_zero(shift_register: u16, short_mode: bool)
    requires
        0 < shift_register < 0x8000,
    ensures
        0 < noise_shifted(shift_register, short_mode) < 0x8000,
{
    lemma_noise_bits(shift_register);
}

proof fn lemma_noise_bits(s: u16)
    by (bit_vector)
    requires
        0 < s < 0x8000,
    ensures
        0 < ((((s & 1) ^ ((s >> 6u8) & 1)) as u16) << 14u8) | (s >> 1u8) < 0x8000,
        0 < ((((s & 1) ^ ((s >> 1u8) & 1)) as u16) << 14u8) | (s >> 1u8) < 0x8000,
{
}

/// The noise channel: timer, length counter, envelope and a 15-bit
/// feedback shift register.
pub struct ApuNoise {
    pub register0: Register<u8>,
    pub register1: Register<u8>,
    pub register2: Register<u8>,
    pub register3: Register<u8>,
    pub enabled: bool,
    pub timer_counter: u16,
    pub timer_period: u16,
    pub envelope_start_flag: bool,
    pub envelope_counter: u8,
    pub envelope_decay_level_counter: u8,
    pub length_counter: u8,
    /// 15 bits, never all zero.
    pub shift_register: u16,
}

impl ApuNoise {
    pub open spec fn wf(&self) -> bool {
        0 < self.shift_register < 0x8000
    }

    pub open spec fn initial() -> ApuNoise {
        ApuNoise {
            register0: Register { data: 0 },
            register1: Register { data: 0 },
            register2: Register { data: 0 },
            register3: Register { data: 0 },
            enabled: false,
            timer_counter: 0,
            timer_period: 0,
            envelope_start_flag: false,
            envelope_counter: 0,
            envelope_decay_level_counter: 0,
            length_counter: 0,
            shift_register: 1,
        }
    }

    pub open spec fn length_counter_disabled_spec(&self) -> bool {
        self.register0@ & 0x20 != 0
    }

    pub open spec fn envelope_disabled_spec(&self) -> bool {
        self.register0@ & 0x10 != 0
    }

    pub open spec fn envelope_period_spec(&self) -> u8 {
        self.register0@ & 0x0F
    }

    pub open spec fn is_random_spec(&self) -> bool {
        self.register2@ & 0x80 != 0
    }

    pub open spec fn timer_index_spec(&self) -> u8 {
        self.register2@ & 0x0F
    }

    pub open spec fn length_counter_index_spec(&self) -> u8 {
        (self.register3@ >> 3u8) & 0x1F
    }

    pub open spec fn after_store_register(&self, address: u16, value: u8) -> ApuNoise {
        let v = Register { data: value };
        if address == 0x400C {
            ApuNoise { register0: v, ..*self }
        } else if address == 0x400D {
            ApuNoise { register1: v, ..*self }
        } else if address == 0x400E {
            let stored = ApuNoise { register2: v, ..*self };
            ApuNoise { timer_period: NOISE_TIMER_TABLE[stored.timer_index_spec() as int], ..stored }
        } else if address == 0x400F {
            let stored = ApuNoise { register3: v, ..*self };
            ApuNoise {
                length_counter: if self.enabled {
                    LENGTH_TABLE[stored.length_counter_index_spec() as int]
                } else {
                    self.length_counter
                },
                envelope_start_flag: true,
                ..stored
            }
        } else {
            *self
        }
    }

    pub open spec fn after_set_enable(&self, enabled: bool) -> ApuNoise {
        ApuNoise {
            enabled,
            length_counter: if enabled {
                self.length_counter
            } else {
                0
            },
            ..*self
        }
    }

    /// The timer counts down; when it runs out it starts again from the
    /// period and the shift register is clocked.
    pub open spec fn after_drive_timer(&self) -> ApuNoise {
        if self.timer_counter > 0 {
            ApuNoise { timer_counter: (self.timer_counter - 1) as u16, ..*self }
        } else {
            ApuNoise {
                timer_counter: self.timer_period,
                shift_register: noise_shifted(self.shift_register, self.is_random_spec()),
                ..*self
            }
        }
    }

    pub open spec fn after_drive_envelope(&self) -> ApuNoise {
        ApuNoise {
            envelope_counter: envelope_counter_after(
                self.envelope_start_flag,
                self.envelope_counter,
                self.envelope_period_spec(),
            ),
            envelope_decay_level_counter: envelope_level_after(
                self.envelope_start_flag,
                self.envelope_counter,
                self.envelope_decay_level_counter,
                self.length_counter_disabled_spec(),
            ),
            envelope_start_flag: false,
            ..*self
        }
    }

    pub open spec fn after_drive_length(&self) -> ApuNoise {
        if !self.length_counter_disabled_spec() && self.length_counter > 0 {
            ApuNoise { length_counter: (self.length_counter - 1) as u8, ..*self }
        } else {
            *self
        }
    }

    /// The level of the channel, 0 to 15; zero where the length counter
    /// has run out or bit 0 of the shift register is set.
    pub open spec fn output_spec(&self) -> u8 {
        if self.length_counter == 0 || (self.shift_register & 1) == 1 {
            0
        } else if self.envelope_disabled_spec() {
            self.envelope_period_spec() & 0x0F
        } else {
            self.envelope_decay_level_counter & 0x0F
        }
    }

    pub fn new() -> (noise: ApuNoise)
        ensures
            noise == ApuNoise::initial(),
            noise.wf(),
    {
        ApuNoise {
            register0: Register::<u8>::new(),
            register1: Register::<u8>::new(),
            register2: Register::<u8>::new(),
            register3: Register::<u8>::new(),
            enabled: false,
            timer_counter: 0,
            timer_period: 0,
            envelope_start_flag: false,
            envelope_counter: 0,
            envelope_decay_level_counter: 0,
            length_counter: 0,
            shift_register: 1,
        }
    }

    pub fn store_register(&mut self, address: u16, value: u8)
        ensures
            *final(self) == old(self).after_store_register(address, value),
            old(self).wf() ==> final(self).wf(),
    {
        if address == 0x400C {
            self.register0.store(value);
        } else if address == 0x400D {
            self.register1.store(value);
        } else if address == 0x400E {
            self.register2.store(value);
            self.timer_period = NOISE_TIMER_TABLE[self.timer_index() as usize];
        } else if address == 0x400F {
            self.register3.store(value);
            if self.enabled {
                self.length_counter = LENGTH_TABLE[self.length_counter_index() as usize];
            }
            self.envelope_start_flag = true;
        }
    }

    pub fn set_enable(&mut self, enabled: bool)
        ensures
            *final(self) == old(self).after_set_enable(enabled),
            old(self).wf() ==> final(self).wf(),
    {
        self.enabled = enabled;
        if !enabled {
            self.length_counter = 0;
        }
    }

    pub fn drive_timer(&mut self)
        requires
            old(self).wf(),
        ensures
            final(self).wf(),
            *final(self) == old(self).after_drive_timer(),
    {
        if self.timer_counter > 0 {
            self.timer_counter -= 1;
        } else {
            self.timer_counter = self.timer_period;
            proof {
                lemma_noise_register_never_zero(self.shift_register, self.is_random_spec());
            }
            let tap: u8 = if self.is_random() {
                6
            } else {
                1
            };
            let feedback = (self.shift_register & 1) ^ ((self.shift_register >> tap) & 1);
            self.shift_register = ((feedback as u16) << 14u8) | (self.shift_register >> 1u8);
        }
    }

    pub fn drive_envelope(&mut self)
        ensures
            *final(self) == old(self).after_drive_envelope(),
            old(self).wf() ==> final(self).wf(),
    {
        if self.envelope_start_flag {
            self.envelope_counter = self.envelope_period();
            self.envelope_decay_level_counter = 0xF;
            self.envelope_start_flag = false;
            return ;
        }
        if self.envelope_counter > 0 {
            self.envelope_counter -= 1;
        } else {
            self.envelope_counter = self.envelope_period();
            if self.envelope_decay_level_counter > 0 {
                self.envelope_decay_level_counter -= 1;
            } else if self.envelope_decay_level_counter == 0 && self.length_counter_disabled() {
                self.envelope_decay_level_counter = 0xF;
            }
        }
    }

    pub fn drive_length(&mut self)
        ensures
            *final(self) == old(self).after_drive_length(),
            old(self).wf() ==> final(self).wf(),
    {
        if !self.length_counter_disabled() && self.length_counter > 0 {
            self.length_counter -= 1;
        }
    }

    pub fn output(&self) -> (level: u8)
        ensures
            level == self.output_spec(),
            level <= 15,
    {
        proof {
            lemma_and_le_u8(self.envelope_period_spec(), 0x0F);
            lemma_and_le_u8(self.envelope_decay_level_counter, 0x0F);
        }
        if self.length_counter == 0 || (self.shift_register & 1) == 1 {
            return 0;
        }
        if self.envelope_disabled() {
            self.envelope_period() & 0x0F
        } else {
            self.envelope_decay_level_counter & 0x0F
        }
    }

    pub fn length_counter_disabled(&self) -> (disabled: bool)
        ensures
            disabled == self.length_counter_disabled_spec(),
    {
        self.register0.is_bit_set(5)
    }

    pub fn envelope_disabled(&self) -> (disabled: bool)
        ensures
            disabled == self.envelope_disabled_spec(),
    {
        self.register0.is_bit_set(4)
    }

    pub fn envelope_period(&self) -> (period: u8)
        ensures
            period == self.envelope_period_spec(),
    {
        self.register0.load_bits(0, 4)
    }

    pub fn is_random(&self) -> (random: bool)
        ensures
            random == self.is_random_spec(),
    {
        self.register2.is_bit_set(7)
    }

    pub fn timer_index(&self) -> (index: u8)
        ensures
            index == self.timer_index_spec(),
            index < 16,
    {
        proof {
            lemma_register_fields(self.register2@);
        }
        self.register2.load_bits(0, 4)
    }

    pub fn length_counter_index(&self) -> (index: u8)
        ensures
            index == self.length_counter_index_spec(),
            index < 32,
    {
        proof {
            lemma_register_fields(self.register3@);
        }
        self.register3.load_bits(3, 5)
    }
}

/// The delta modulation channel: timer, memory reader, sample buffer and
/// output unit.
pub struct ApuDmc {
    pub register0: Register<u8>,
    pub register1: Register<u8>,
    pub register2: Register<u8>,
    pub register3: Register<u8>,
    pub enabled: bool,
    pub timer_period: u16,
    pub timer_counter: u16,
    /// The output level, 7 bits.
    pub delta_counter: u8,
    /// Where the next sample byte lies.
    pub address_counter: u16,
    pub remaining_bytes_counter: u16,
    pub sample_buffer: u8,
    pub sample_buffer_is_empty: bool,
    pub shift_register: u8,
    pub remaining_bits_counter: u8,
    pub silence_flag: bool,
}

impl ApuDmc {
    pub open spec fn wf(&self) -> bool {
        self.delta_counter <= 127 && self.remaining_bits_counter <= 8
    }

    /// A measure of how soon the channel can want a byte again, 0 to 16.
    /// A clock of the timer that takes a byte lowers it by at least 7,
    /// any other clock raises it by at most 1: the channel takes at most
    /// one byte for every eight clocks, and two more.
    pub open spec fn fetch_credit(&self) -> int {
        if self.sample_buffer_is_empty {
            16 - self.remaining_bits_counter
        } else {
            8 - self.remaining_bits_counter
        }
    }

    pub open spec fn initial() -> ApuDmc {
        ApuDmc {
            register0: Register { data: 0 },
            register1: Register { data: 0 },
            register2: Register { data: 0 },
            register3: Register { data: 0 },
            enabled: false,
            timer_period: 0,
            timer_counter: 0,
            delta_counter: 0,
            address_counter: 0,
            remaining_bytes_counter: 0,
            sample_buffer: 0,
            sample_buffer_is_empty: true,
            shift_register: 0,
            remaining_bits_counter: 0,
            silence_flag: true,
        }
    }

    pub open spec fn irq_enabled_spec(&self) -> bool {
        self.register0@ & 0x80 != 0
    }

    pub open spec fn is_loop_spec(&self) -> bool {
        self.register0@ & 0x40 != 0
    }

    pub open spec fn timer_index_spec(&self) -> u8 {
        self.register0@ & 0x0F
    }

    /// The level that a write to the level register sets: its low seven
    /// bits. A write of 127 sets the level to 127, the one level above 126
    /// that the channel can hold: no bit of a sample moves the level there,
    /// a 1 leaves it at 127 and a 0 takes it to 125.
    pub open spec fn delta_counter_spec(&self) -> u8 {
        self.register1@ & 0x7F
    }

    /// Where the sample starts: 0xC000 plus 64 times the address register.
    pub open spec fn start_address(&self) -> u16 {
        ((self.register2@ as u16) << 6u8) | 0xC000
    }

    /// How long the sample is: 16 times the length register, plus 1.
    pub open spec fn start_length(&self) -> u16 {
        ((self.register3@ as u16) << 4u8) | 1
    }

    pub open spec fn after_store_register(&self, address: u16, value: u8) -> ApuDmc {
        let v = Register { data: value };
        if address == 0x4010 {
            let stored = ApuDmc { register0: v, ..*self };
            ApuDmc {
                timer_period: DMC_TIMER_TABLE[stored.timer_index_spec() as int] >> 1u8,
                ..stored
            }
        } else if address == 0x4011 {
            let stored = ApuDmc { register1: v, ..*self };
            ApuDmc { delta_counter: stored.delta_counter_spec(), ..stored }
        } else if address == 0x4012 {
            let stored = ApuDmc { register2: v, ..*self };
            ApuDmc { address_counter: stored.start_address(), ..stored }
        } else if address == 0x4013 {
            let stored = ApuDmc { register3: v, ..*self };
            ApuDmc { remaining_bytes_counter: stored.start_length(), ..stored }
        } else {
            *self
        }
    }

    /// The channel with the sample started again: address and length come
    /// from the registers, the level stays.
    pub open spec fn after_start(&self) -> ApuDmc {
        ApuDmc {
            address_counter: self.start_address(),
            remaining_bytes_counter: self.start_length(),
            ..*self
        }
    }

    /// Enabling starts the sample only where no bytes remain; disabling
    /// drops what remains.
    pub open spec fn after_set_enable(&self, enabled: bool) -> ApuDmc {
        let s = ApuDmc { enabled, ..*self };
        if enabled {
            if self.remaining_bytes_counter == 0 {
                s.after_start()
            } else {
                s
            }
        } else {
            ApuDmc { remaining_bytes_counter: 0, ..s }
        }
    }

    /// Whether the channel wants a byte from the processor's memory.
    pub open spec fn needs_cpu_memory_data_spec(&self) -> bool {
        self.timer_counter == 0 && self.remaining_bytes_counter > 0 && self.sample_buffer_is_empty
    }

    /// Whether a clock of the timer takes a byte into the sample buffer.
    pub open spec fn reads(&self) -> bool {
        self.remaining_bytes_counter > 0 && self.sample_buffer_is_empty
    }

    /// The memory reader: the byte goes into the sample buffer, the address
    /// moves on, after 0xFFFF to 0x8000, and one byte less remains. When
    /// none remains the sample starts again where it loops.
    pub open spec fn after_read(&self, sample_data: u8) -> ApuDmc {
        if self.reads() {
            let taken = ApuDmc {
                sample_buffer: sample_data,
                address_counter: if self.address_counter == 0xFFFF {
                    0x8000
                } else {
                    (self.address_counter + 1) as u16
                },
                sample_buffer_is_empty: false,
                remaining_bytes_counter: (self.remaining_bytes_counter - 1) as u16,
                ..*self
            };
            if taken.remaining_bytes_counter == 0 && taken.is_loop_spec() {
                taken.after_start()
            } else {
                taken
            }
        } else {
            *self
        }
    }

    /// Whether a clock of the timer ends the sample with an interrupt.
    pub open spec fn irq_on_read(&self) -> bool {
        self.reads() && self.remaining_bytes_counter == 1 && !self.is_loop_spec()
            && self.irq_enabled_spec()
    }

    /// The output unit at the start of a run of eight bits: it takes the
    /// sample buffer, or falls silent where the buffer is empty.
    pub open spec fn after_refill(&self) -> ApuDmc {
        if self.remaining_bits_counter == 0 {
            if self.sample_buffer_is_empty {
                ApuDmc { remaining_bits_counter: 8, silence_flag: true, ..*self }
            } else {
                ApuDmc {
                    remaining_bits_counter: 8,
                    silence_flag: false,
                    sample_buffer_is_empty: true,
                    shift_register: self.sample_buffer,
                    sample_buffer: 0,
                    ..*self
                }
            }
        } else {
            *self
        }
    }

    /// The level after one bit: up by 2 for a 1 and down by 2 for a 0,
    /// unless that would leave 0 to 126 or the unit is silent.
    pub open spec fn level_after_bit(&self) -> u8 {
        if self.silence_flag {
            self.delta_counter
        } else if (self.shift_register & 1) == 0 {
            if self.delta_counter >= 2 {
                (self.delta_counter - 2) as u8
            } else {
                self.delta_counter
            }
        } else {
            if self.delta_counter <= 124 {
                (self.delta_counter + 2) as u8
            } else {
                self.delta_counter
            }
        }
    }

    /// The output unit after one bit.
    pub open spec fn after_bit(&self) -> ApuDmc {
        ApuDmc {
            delta_counter: self.level_after_bit(),
            remaining_bits_counter: (self.remaining_bits_counter - 1) as u8,
            shift_register: self.shift_register >> 1u8,
            ..*self
        }
    }

    /// The timer counts down; when it runs out it starts again from the
    /// period, the memory reader and then the output unit are clocked.
    pub open spec fn after_drive_timer(&self, sample_data: u8) -> ApuDmc {
        if self.timer_counter > 0 {
            ApuDmc { timer_counter: (self.timer_counter - 1) as u16, ..*self }
        } else {
            ApuDmc { timer_counter: self.timer_period, ..*self }.after_read(
                sample_data,
            ).after_refill().after_bit()
        }
    }

    /// Whether a clock of the timer raises the channel's interrupt.
    pub open spec fn irq_on_drive_timer(&self) -> bool {
        self.timer_counter == 0 && self.irq_on_read()
    }

    /// The level of the channel, 0 to 127; zero while silent.
    pub open spec fn output_spec(&self) -> u8 {
        if self.silence_flag {
            0
        } else {
            self.delta_counter & 0x7F
        }
    }

    pub fn new() -> (dmc: ApuDmc)
        ensures
            dmc == ApuDmc::initial(),
            dmc.wf(),
    {
        ApuDmc {
            register0: Register::<u8>::new(),
            register1: Register::<u8>::new(),
            register2: Register::<u8>::new(),
            register3: Register::<u8>::new(),
            enabled: false,
            timer_period: 0,
            timer_counter: 0,
            delta_counter: 0,
            address_counter: 0,
            remaining_bytes_counter: 0,
            sample_buffer: 0,
            sample_buffer_is_empty: true,
            shift_register: 0,
            remaining_bits_counter: 0,
            silence_flag: true,
        }
    }

    pub fn store_register(&mut self, address: u16, value: u8)
        ensures
            *final(self) == old(self).after_store_register(address, value),
            old(self).wf() ==> final(self).wf(),
            address != 0x4011 ==> final(self).delta_counter == old(self).delta_counter,
            address == 0x4011 ==> final(self).delta_counter == value & 0x7F,
    {
        proof {
            lemma_register_fields(value);
        }
        if address == 0x4010 {
            self.register0.store(value);
            self.timer_period = DMC_TIMER_TABLE[self.timer_index() as usize] >> 1u8;
        } else if address == 0x4011 {
            self.register1.store(value);
            self.delta_counter = self.delta_counter();
        } else if address == 0x4012 {
            self.register2.store(value);
            self.address_counter = ((self.sample_address() as u16) << 6u8) | 0xC000;
        } else if address == 0x4013 {
            self.register3.store(value);
            self.remaining_bytes_counter = ((self.sample_length() as u16) << 4u8) | 1;
        }
    }

    pub fn set_enable(&mut self, enabled: bool)
        ensures
            *final(self) == old(self).after_set_enable(enabled),
            old(self).wf() ==> final(self).wf(),
            final(self).delta_counter == old(self).delta_counter,
    {
        self.enabled = enabled;
        if enabled {
            if self.remaining_bytes_counter == 0 {
                self.start();
            }
        } else {
            self.remaining_bytes_counter = 0;
        }
    }

    pub fn start(&mut self)
        ensures
            *final(self) == old(self).after_start(),
            old(self).wf() ==> final(self).wf(),
    {
        self.address_counter = ((self.sample_address() as u16) << 6u8) | 0xC000;
        self.remaining_bytes_counter = ((self.sample_length() as u16) << 4u8) | 1;
    }

    pub fn needs_cpu_memory_data(&self) -> (needs: bool)
        ensures
            needs == self.needs_cpu_memory_data_spec(),
    {
        self.timer_counter == 0 && self.remaining_bytes_counter > 0 && self.sample_buffer_is_empty
    }

    /// Clocks the timer with the byte that the processor has read for the
    /// channel, and tells whether the sample has ended with an interrupt.
    /// A level that is at most 126 stays so. A clock that takes a byte
    /// lowers the fetch credit by at least 7, any other call raises it by
    /// at most 1.
    pub fn drive_timer(&mut self, sample_data: u8) -> (irq_active: bool)
        requires
            old(self).wf(),
        ensures
            final(self).wf(),
            *final(self) == old(self).after_drive_timer(sample_data),
            irq_active == old(self).irq_on_drive_timer(),
            old(self).delta_counter <= 126 ==> final(self).delta_counter <= 126,
            final(self).fetch_credit() + (if old(self).timer_counter == 0 && old(self).reads() {
                8int
            } else {
                0int
            }) <= old(self).fetch_credit() + 1,
    {
        let mut irq_active = false;
        if self.timer_counter > 0 {
            self.timer_counter -= 1;
        } else {
            self.timer_counter = self.timer_period;
            if self.remaining_bytes_counter > 0 && self.sample_buffer_is_empty {
                self.sample_buffer = sample_data;
                self.address_counter = if self.address_counter == 0xFFFF {
                    0x8000
                } else {
                    self.address_counter + 1
                };
                self.sample_buffer_is_empty = false;
                self.remaining_bytes_counter -= 1;
                if self.remaining_bytes_counter == 0 {
                    if self.is_loop() {
                        self.start();
                    } else if self.irq_enabled() {
                        irq_active = true;
                    }
                }
            }
            if self.remaining_bits_counter == 0 {
                self.remaining_bits_counter = 8;
                if self.sample_buffer_is_empty {
                    self.silence_flag = true;
                } else {
                    self.silence_flag = false;
                    self.sample_buffer_is_empty = true;
                    self.shift_register = self.sample_buffer;
                    self.sample_buffer = 0;
                }
            }
            if !self.silence_flag {
                if (self.shift_register & 1) == 0 {
                    if self.delta_counter >= 2 {
                        self.delta_counter -= 2;
                    }
                } else {
                    if self.delta_counter <= 124 {
                        self.delta_counter += 2;
                    }
                }
            }
            self.remaining_bits_counter -= 1;
            self.shift_register = self.shift_register >> 1u8;
        }
        irq_active
    }

    pub fn output(&self) -> (level: u8)
        ensures
            level == self.output_spec(),
            level <= 127,
    {
        proof {
            lemma_and_le_u8(self.delta_counter, 0x7F);
        }
        if self.silence_flag {
            return 0;
        }
        self.delta_counter & 0x7F
    }

    pub fn irq_enabled(&self) -> (enabled: bool)
        ensures
            enabled == self.irq_enabled_spec(),
    {
        self.register0.is_bit_set(7)
    }

    pub fn is_loop(&self) -> (looping: bool)
        ensures
            looping == self.is_loop_spec(),
    {
        self.register0.is_bit_set(6)
    }

    pub fn timer_index(&self) -> (index: u8)
        ensures
            index == self.timer_index_spec(),
            index < 16,
    {
        proof {
            lemma_register_fields(self.register0@);
        }
        self.register0.load_bits(0, 4)
    }

    pub fn delta_counter(&self) -> (level: u8)
        ensures
            level == self.delta_counter_spec(),
            level <= 127,
    {
        proof {
            lemma_register_fields(self.register1@);
        }
        self.register1.load_bits(0, 7)
    }

    pub fn sample_address(&self) -> (address: u8)
        ensures
            address == self.register2@,
    {
        self.register2.load()
    }

    pub fn sample_length(&self) -> (length: u8)
        ensures
            length == self.register3@,
    {
        self.register3.load()
    }
}

/// The frame counter register, written at 0x4017.
pub struct ApuFrameRegister {
    pub register: Register<u8>,
}

impl ApuFrameRegister {
    pub open spec fn view(&self) -> u8 {
        self.register@
    }

    pub fn new() -> (r: ApuFrameRegister)
        ensures
            r@ == 0,
    {
        ApuFrameRegister { register: Register::<u8>::new() }
    }

    pub fn store(&mut self, value: u8)
        ensures
            final(self)@ == value,
    {
        self.register.store(value);
    }

    /// Bit 7: the sequencer has five steps, not four.
    pub fn five_step_mode(&self) -> (five: bool)
        ensures
            five == (self@ & 0x80 != 0),
    {
        self.register.is_bit_set(7)
    }

    /// Bit 6: the frame interrupt is inhibited.
    pub fn irq_disabled(&self) -> (disabled: bool)
        ensures
            disabled == (self@ & 0x40 != 0),
    {
        self.register.is_bit_set(6)
    }
}

/// The cycle counter after one cycle: it counts modulo 2^24.
pub open spec fn next_cycle(cycle: u32) -> u32 {
    if cycle + 1 >= CYCLE_MODULUS {
        0
    } else {
        (cycle + 1) as u32
    }
}

/// The cycle counter is even after a cycle exactly where it was odd before.
pub proof fn lemma_cycles_alternate(cycle: u32)
    requires
        cycle < CYCLE_MODULUS,
    ensures
        (next_cycle(cycle) % 2 == 0) == (cycle % 2 == 1),
{
}

/// What the audio processing unit holds.
pub struct ApuState {
    /// Processor cycles seen, modulo 2^24.
    pub cycle: u32,
    /// The step of the frame sequencer, 0 to 4.
    pub step: u16,
    pub pulse1: ApuPulse,
    pub pulse2: ApuPulse,
    pub triangle: ApuTriangle,
    pub noise: ApuNoise,
    pub dmc: ApuDmc,
    /// The byte last written to the status register.
    pub status: u8,
    /// The byte last written to the frame counter register.
    pub frame: u8,
    pub frame_irq_active: bool,
    pub dmc_irq_active: bool,
    /// The unit asks the processor for an interrupt.
    pub irq_interrupted: bool,
    /// What the loudspeaker holds.
    pub audio: AudioState,
}

impl ApuState {
    pub open spec fn wf(self) -> bool {
        &&& self.cycle < CYCLE_MODULUS
        &&& self.step < 5
        &&& self.pulse1.wf()
        &&& self.pulse2.wf()
        &&& self.triangle.wf()
        &&& self.noise.wf()
        &&& self.dmc.wf()
    }

    /// The unit at power-on, before a loudspeaker that holds `audio`.
    pub open spec fn initial(audio: AudioState) -> ApuState {
        ApuState {
            cycle: 0,
            step: 0,
            pulse1: ApuPulse::initial(ApuPulseChannel::Channel1),
            pulse2: ApuPulse::initial(ApuPulseChannel::Channel2),
            triangle: ApuTriangle::initial(),
            noise: ApuNoise::initial(),
            dmc: ApuDmc::initial(),
            status: 0,
            frame: 0,
            frame_irq_active: false,
            dmc_irq_active: false,
            irq_interrupted: false,
            audio,
        }
    }

    pub open spec fn five_step_mode(self) -> bool {
        self.frame & 0x80 != 0
    }

    pub open spec fn irq_disabled(self) -> bool {
        self.frame & 0x40 != 0
    }

    pub open spec fn after_bootup(self) -> ApuState {
        ApuState { status: 0, ..self }
    }

    pub open spec fn after_reset(self) -> ApuState {
        ApuState { status: 0, ..self }
    }

    /// The levels of the five channels.
    pub open spec fn sample(self) -> Sample {
        Sample {
            pulse1: self.pulse1.output_spec(),
            pulse2: self.pulse2.output_spec(),
            triangle: self.triangle.output_spec(),
            noise: self.noise.output_spec(),
            dmc: self.dmc.output_spec(),
        }
    }

    pub open spec fn after_sample(self) -> ApuState {
        ApuState { audio: self.audio.after_push(self.sample()), ..self }
    }

    /// The timers: the triangle's on every cycle, the others on every
    /// second one.
    pub open spec fn after_timers(self, dmc_sample_data: u8) -> ApuState {
        let s = if self.cycle % 2 == 0 {
            ApuState {
                pulse1: self.pulse1.after_drive_timer(),
                pulse2: self.pulse2.after_drive_timer(),
                noise: self.noise.after_drive_timer(),
                dmc: self.dmc.after_drive_timer(dmc_sample_data),
                dmc_irq_active: self.dmc_irq_active || self.dmc.irq_on_drive_timer(),
                ..self
            }
        } else {
            self
        };
        ApuState { triangle: s.triangle.after_drive_timer(), ..s }
    }

    /// A clock of the envelopes and of the linear counter.
    pub open spec fn after_envelopes(self) -> ApuState {
        ApuState {
            pulse1: self.pulse1.after_drive_envelope(),
            pulse2: self.pulse2.after_drive_envelope(),
            triangle: self.triangle.after_drive_linear(),
            noise: self.noise.after_drive_envelope(),
            ..self
        }
    }

    /// A clock of the length counters and of the sweeps.
    pub open spec fn after_lengths(self) -> ApuState {
        ApuState {
            pulse1: self.pulse1.after_drive_length().after_drive_sweep(),
            pulse2: self.pulse2.after_drive_length().after_drive_sweep(),
            triangle: self.triangle.after_drive_length(),
            noise: self.noise.after_drive_length(),
            ..self
        }
    }

    /// A step of the frame sequencer. With five steps: envelopes on steps
    /// 0 to 3, lengths on steps 0 and 2, no interrupt. With four steps:
    /// envelopes on every step, lengths on steps 1 and 3, and on step 3
    /// the frame interrupt unless it is inhibited. A raised interrupt flag
    /// asks the processor for an interrupt.
    pub open spec fn after_sequencer(self) -> ApuState {
        let s = if self.five_step_mode() {
            let enveloped = if self.step < 4 {
                self.after_envelopes()
            } else {
                self
            };
            let counted = if self.step == 0 || self.step == 2 {
                enveloped.after_lengths()
            } else {
                enveloped
            };
            ApuState { step: ((self.step + 1) % 5) as u16, ..counted }
        } else {
            let enveloped = self.after_envelopes();
            let counted = if self.step == 1 || self.step == 3 {
                enveloped.after_lengths()
            } else {
                enveloped
            };
            let frame_irq = counted.frame_irq_active || (self.step == 3 && !self.irq_disabled());
            ApuState {
                frame_irq_active: frame_irq,
                irq_interrupted: counted.irq_interrupted || (frame_irq && !self.irq_disabled()),
                step: ((self.step + 1) % 4) as u16,
                ..counted
            }
        };
        ApuState { irq_interrupted: s.irq_interrupted || s.dmc_irq_active, ..s }
    }

    /// The unit after one processor cycle, given the byte that the
    /// processor has read for the delta channel.
    #[verifier::opaque]
    pub open spec fn after_step(self, dmc_sample_data: u8) -> ApuState {
        let counted = ApuState { cycle: next_cycle(self.cycle), ..self };
        let sampled = if counted.cycle % SAMPLE_PERIOD == 0 {
            counted.after_sample()
        } else {
            counted
        };
        let timed = sampled.after_timers(dmc_sample_data);
        if timed.cycle % SEQUENCER_PERIOD == 0 {
            timed.after_sequencer()
        } else {
            timed
        }
    }

    /// The status byte: bit 7 the delta channel's interrupt, bit 6 the
    /// frame interrupt, bit 4 bytes remaining for the delta channel, bits
    /// 3 to 0 a running length counter of noise, triangle, second and
    /// first pulse.
    pub open spec fn status_value(self) -> u8 {
        let b7: u8 = if self.dmc_irq_active {
            0x80
        } else {
            0
        };
        let b6: u8 = if self.frame_irq_active && !self.irq_disabled() {
            0x40
        } else {
            0
        };
        let b4: u8 = if self.dmc.remaining_bytes_counter > 0 {
            0x10
        } else {
            0
        };
        let b3: u8 = if self.noise.length_counter > 0 {
            0x08
        } else {
            0
        };
        let b2: u8 = if self.triangle.length_counter > 0 {
            0x04
        } else {
            0
        };
        let b1: u8 = if self.pulse2.length_counter > 0 {
            0x02
        } else {
            0
        };
        let b0: u8 = if self.pulse1.length_counter > 0 {
            0x01
        } else {
            0
        };
        (b7 + b6 + b4 + b3 + b2 + b1 + b0) as u8
    }

    /// The byte that a read of a register returns.
    pub open spec fn register_value(self, address: u16) -> u8 {
        if address == 0x4015 {
            self.status_value()
        } else {
            0
        }
    }

    /// The unit after a read of a register: reading the status register
    /// clears the frame interrupt.
    pub open spec fn after_load_register(self, address: u16) -> ApuState {
        if address == 0x4015 {
            ApuState { frame_irq_active: false, ..self }
        } else {
            self
        }
    }

    /// The unit after a write to a register.
    pub open spec fn after_store_register(self, address: u16, value: u8) -> ApuState {
        if 0x4000 <= address <= 0x4003 {
            ApuState { pulse1: self.pulse1.after_store_register(address, value), ..self }
        } else if 0x4004 <= address <= 0x4007 {
            ApuState { pulse2: self.pulse2.after_store_register(address, value), ..self }
        } else if 0x4008 <= address <= 0x400B {
            ApuState { triangle: self.triangle.after_store_register(address, value), ..self }
        } else if 0x400C <= address <= 0x400F {
            ApuState { noise: self.noise.after_store_register(address, value), ..self }
        } else if 0x4010 <= address <= 0x4013 {
            ApuState { dmc: self.dmc.after_store_register(address, value), ..self }
        } else if address == 0x4015 {
            ApuState {
                status: value,
                dmc: self.dmc.after_set_enable((value & 0x10) == 0x10),
                noise: self.noise.after_set_enable((value & 0x8) == 0x8),
                triangle: self.triangle.after_set_enable((value & 0x4) == 0x4),
                pulse2: self.pulse2.after_set_enable((value & 0x2) == 0x2),
                pulse1: self.pulse1.after_set_enable((value & 0x1) == 0x1),
                dmc_irq_active: false,
                ..self
            }
        } else if address == 0x4017 {
            // the sequencer starts again; with five steps it is clocked at once
            let s = ApuState {
                frame: value,
                frame_irq_active: self.frame_irq_active && value & 0x40 == 0,
                step: 0,
                ..self
            };
            if value & 0x80 != 0 {
                s.after_envelopes().after_lengths()
            } else {
                s
            }
        } else {
            self
        }
    }
}

/// The status byte as the sum of its bits is the byte with those bits set.
proof fn lemma_status_bits(b7: bool, b6: bool, b4: bool, b3: bool, b2: bool, b1: bool, b0: bool)
    by (bit_vector)
    ensures
        ({
            let v7: u8 = if b7 { 0u8 | 0x80 } else { 0u8 };
            let v6: u8 = if b6 { v7 | 0x40 } else { v7 };
            let v4: u8 = if b4 { v6 | 0x10 } else { v6 };
            let v3: u8 = if b3 { v4 | 0x08 } else { v4 };
            let v2: u8 = if b2 { v3 | 0x04 } else { v3 };
            let v1: u8 = if b1 { v2 | 0x02 } else { v2 };
            let v0: u8 = if b0 { v1 | 0x01 } else { v1 };
            v0
        }) == (if b7 { 0x80u8 } else { 0u8 }) + (if b6 { 0x40u8 } else { 0u8 }) + (if b4 { 0x10u8 } else { 0u8 }) + (if b3 { 0x08u8 } else { 0u8 }) + (if b2 { 0x04u8 } else { 0u8 }) + (if b1 { 0x02u8 } else { 0u8 }) + (if b0 { 0x01u8 } else { 0u8 }),
{
}

/// The audio processing unit, sounding on a loudspeaker of type `A`.
pub struct Apu<A: Audio> {
    cycle: u32,
    step: u16,
    pulse1: ApuPulse,
    pulse2: ApuPulse,
    triangle: ApuTriangle,
    noise: ApuNoise,
    dmc: ApuDmc,
    status: Register<u8>,
    frame: ApuFrameRegister,
    frame_irq_active: bool,
    dmc_irq_active: bool,
    irq_interrupted: bool,
    audio: A,
}

impl<A: Audio> Apu<A> {
    pub closed spec fn view(&self) -> ApuState {
        ApuState {
            cycle: self.cycle,
            step: self.step,
            pulse1: self.pulse1,
            pulse2: self.pulse2,
            triangle: self.triangle,
            noise: self.noise,
            dmc: self.dmc,
            status: self.status@,
            frame: self.frame@,
            frame_irq_active: self.frame_irq_active,
            dmc_irq_active: self.dmc_irq_active,
            irq_interrupted: self.irq_interrupted,
            audio: self.audio.state(),
        }
    }

    /// The loudspeaker is in order.
    pub closed spec fn audio_wf(&self) -> bool {
        self.audio.wf()
    }

    pub open spec fn wf(&self) -> bool {
        self@.wf() && self.audio_wf()
    }

    pub fn new(audio: A) -> (apu: Apu<A>)
        requires
            audio.wf(),
        ensures
            apu.wf(),
            apu@ == ApuState::initial(audio.state()),
    {
        Apu {
            cycle: 0,
            step: 0,
            pulse1: ApuPulse::new(ApuPulseChannel::Channel1),
            pulse2: ApuPulse::new(ApuPulseChannel::Channel2),
            triangle: ApuTriangle::new(),
            noise: ApuNoise::new(),
            dmc: ApuDmc::new(),
            status: Register::<u8>::new(),
            frame: ApuFrameRegister::new(),
            frame_irq_active: false,
            dmc_irq_active: false,
            irq_interrupted: false,
            audio: audio,
        }
    }

    pub fn bootup(&mut self)
        ensures
            final(self)@ == old(self)@.after_bootup(),
            old(self).wf() ==> final(self).wf(),
    {
        self.status.store(0x00);
    }

    pub fn reset(&mut self)
        ensures
            final(self)@ == old(self)@.after_reset(),
            old(self).wf() ==> final(self).wf(),
    {
        self.status.store(0x00);
    }

    /// Hands the oldest samples that the loudspeaker holds over to `buffer`.
    pub fn copy_sample_buffer(&mut self, buffer: &mut [Sample])
        requires
            old(self).wf(),
            old(buffer)@.len() >= crate::audio::CLIENT_BUFFER_LENGTH,
        ensures
            final(self).wf(),
            final(self)@ == (ApuState { audio: old(self)@.audio.after_pull(), ..old(self)@ }),
            final(buffer)@ == old(self)@.audio.pulled_into(old(buffer)@),
    {
        self.audio.copy_sample_buffer(buffer);
    }

    pub fn get_audio(&self) -> (audio: &A)
        ensures
            audio.state() == self@.audio,
            self.wf() ==> audio.wf(),
    {
        &self.audio
    }

    /// Whether the unit asks the processor for an interrupt.
    pub fn irq_interrupted(&self) -> (raised: bool)
        ensures
            raised == self@.irq_interrupted,
    {
        self.irq_interrupted
    }

    pub fn clear_irq_interrupted(&mut self)
        ensures
            final(self)@ == (ApuState { irq_interrupted: false, ..old(self)@ }),
            old(self).wf() ==> final(self).wf(),
    {
        self.irq_interrupted = false;
    }

    /// Runs the unit for one processor cycle.
    pub fn step(&mut self, dmc_sample_data: u8)
        requires
            old(self).wf(),
        ensures
            final(self).wf(),
            final(self)@ == old(self)@.after_step(dmc_sample_data),
            old(self)@.dmc.delta_counter <= 126 ==> final(self)@.dmc.delta_counter <= 126,
            final(self)@.dmc.fetch_credit() + (if next_cycle(old(self)@.cycle) % 2 == 0 && old(self)@.dmc.needs_cpu_memory_data_spec() {
                8int
            } else {
                0int
            }) <= old(self)@.dmc.fetch_credit() + 1,
    {
        proof {
            reveal(ApuState::after_step);
        }
        self.cycle = if self.cycle + 1 >= CYCLE_MODULUS {
            0
        } else {
            self.cycle + 1
        };
        let ghost counted = self@;
        if (self.cycle % SAMPLE_PERIOD) == 0 {
            self.sample();
        }
        assert(self@.dmc == counted.dmc && self@.cycle == counted.cycle);
        self.drive_timers(dmc_sample_data);
        let ghost timed = self@;
        if (self.cycle % SEQUENCER_PERIOD) == 0 {
            self.drive_sequencer();
        }
        assert(self@.dmc == timed.dmc);
    }

    /// Clocks the timers: the triangle's on every cycle, the others on
    /// every second one.
    fn drive_timers(&mut self, dmc_sample_data: u8)
        requires
            old(self).wf(),
        ensures
            final(self).wf(),
            final(self)@ == old(self)@.after_timers(dmc_sample_data),
            old(self)@.dmc.delta_counter <= 126 ==> final(self)@.dmc.delta_counter <= 126,
            final(self)@.dmc.fetch_credit() + (if old(self)@.cycle % 2 == 0 && old(self)@.dmc.needs_cpu_memory_data_spec() {
                8int
            } else {
                0int
            }) <= old(self)@.dmc.fetch_credit() + 1,
    {
        if (self.cycle % 2) == 0 {
            self.pulse1.drive_timer();
            self.pulse2.drive_timer();
            self.noise.drive_timer();
            if self.dmc.drive_timer(dmc_sample_data) {
                self.dmc_irq_active = true;
            }
        }
        self.triangle.drive_timer();
    }

    fn drive_envelopes(&mut self)
        requires
            old(self).wf(),
        ensures
            final(self).wf(),
            final(self)@ == old(self)@.after_envelopes(),
    {
        self.pulse1.drive_envelope();
        self.pulse2.drive_envelope();
        self.triangle.drive_linear();
        self.noise.drive_envelope();
    }

    fn drive_lengths(&mut self)
        requires
            old(self).wf(),
        ensures
            final(self).wf(),
            final(self)@ == old(self)@.after_lengths(),
    {
        self.pulse1.drive_length();
        self.pulse1.drive_sweep();
        self.pulse2.drive_length();
        self.pulse2.drive_sweep();
        self.triangle.drive_length();
        self.noise.drive_length();
    }

    fn drive_sequencer(&mut self)
        requires
            old(self).wf(),
        ensures
            final(self).wf(),
            final(self)@ == old(self)@.after_sequencer(),
            final(self)@.dmc == old(self)@.dmc,
            final(self)@.cycle == old(self)@.cycle,
    {
        if self.frame.five_step_mode() {
            if self.step < 4 {
                self.drive_envelopes();
            }
            if self.step == 0 || self.step == 2 {
                self.drive_lengths();
            }
            self.step = (self.step + 1) % 5;
        } else {
            self.drive_envelopes();
            if self.step == 1 || self.step == 3 {
                self.drive_lengths();
            }
            if self.step == 3 && !self.frame.irq_disabled() {
                self.frame_irq_active = true;
            }
            if self.frame_irq_active && !self.frame.irq_disabled() {
                self.irq_interrupted = true;
            }
            self.step = (self.step + 1) % 4;
        }
        if self.dmc_irq_active {
            self.irq_interrupted = true;
        }
    }

    /// Reads a register as the processor does.
    pub fn load_register(&mut self, address: u16) -> (value: u8)
        ensures
            value == old(self)@.register_value(address),
            final(self)@ == old(self)@.after_load_register(address),
            old(self).wf() ==> final(self).wf(),
    {
        if address == 0x4015 {
            proof {
                lemma_status_bits(
                    self.dmc_irq_active,
                    self.frame_irq_active && !self@.irq_disabled(),
                    self.dmc.remaining_bytes_counter > 0,
                    self.noise.length_counter > 0,
                    self.triangle.length_counter > 0,
                    self.pulse2.length_counter > 0,
                    self.pulse1.length_counter > 0,
                );
            }
            let mut value: u8 = 0;
            if self.dmc_irq_active {
                value = value | 0x80;
            }
            if self.frame_irq_active && !self.frame.irq_disabled() {
                value = value | 0x40;
            }
            if self.dmc.remaining_bytes_counter > 0 {
                value = value | 0x10;
            }
            if self.noise.length_counter > 0 {
                value = value | 0x08;
            }
            if self.triangle.length_counter > 0 {
                value = value | 0x04;
            }
            if self.pulse2.length_counter > 0 {
                value = value | 0x02;
            }
            if self.pulse1.length_counter > 0 {
                value = value | 0x01;
            }
            self.frame_irq_active = false;
            value
        } else {
            0
        }
    }

    /// Writes a register as the processor does.
    pub fn store_register(&mut self, address: u16, value: u8)
        requires
            old(self).wf(),
        ensures
            final(self).wf(),
            final(self)@ == old(self)@.after_store_register(address, value),
            address != 0x4011 ==> final(self)@.dmc.delta_counter == old(self)@.dmc.delta_counter,
            address == 0x4011 ==> final(self)@.dmc.delta_counter == value & 0x7F,
    {
        if 0x4000 <= address && address <= 0x4003 {
            self.pulse1.store_register(address, value);
        } else if 0x4004 <= address && address <= 0x4007 {
            self.pulse2.store_register(address, value);
        } else if 0x4008 <= address && address <= 0x400B {
            self.triangle.store_register(address, value);
        } else if 0x400C <= address && address <= 0x400F {
            self.noise.store_register(address, value);
        } else if 0x4010 <= address && address <= 0x4013 {
            self.dmc.store_register(address, value);
        } else if address == 0x4015 {
            self.status.store(value);
            self.dmc.set_enable((value & 0x10) == 0x10);
            self.noise.set_enable((value & 0x8) == 0x8);
            self.triangle.set_enable((value & 0x4) == 0x4);
            self.pulse2.set_enable((value & 0x2) == 0x2);
            self.pulse1.set_enable((value & 0x1) == 0x1);
            self.dmc_irq_active = false;
        } else if address == 0x4017 {
            self.frame.store(value);
            if self.frame.irq_disabled() {
                self.frame_irq_active = false;
            }
            self.step = 0;
            if self.frame.five_step_mode() {
                self.drive_envelopes();
                self.drive_lengths();
            }
        }
    }

    /// Whether the delta channel wants a byte on this cycle: it asks on
    /// odd cycles only.
    pub fn dmc_needs_cpu_memory_data(&self) -> (needs: bool)
        ensures
            needs == (self@.cycle % 2 == 1 && self@.dmc.needs_cpu_memory_data_spec()),
    {
        (self.cycle % 2) == 1 && self.dmc.needs_cpu_memory_data()
    }

    /// Where the byte that the delta channel wants lies.
    pub fn dmc_sample_address(&self) -> (address: u16)
        ensures
            address == self@.dmc.address_counter,
    {
        self.dmc.address_counter
    }

    /// Pushes the levels of the channels to the loudspeaker.
    fn sample(&mut self)
        requires
            old(self).wf(),
        ensures
            final(self).wf(),
            final(self)@ == old(self)@.after_sample(),
            final(self)@.dmc == old(self)@.dmc,
            final(self)@.cycle == old(self)@.cycle,
    {
        let value = Sample {
            pulse1: self.pulse1.output(),
            pulse2: self.pulse2.output(),
            triangle: self.triangle.output(),
            noise: self.noise.output(),
            dmc: self.dmc.output(),
        };
        self.audio.push(value);
    }
}

} // verus!
