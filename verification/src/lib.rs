//! A cycle-driven emulator core for the Nintendo Entertainment System:
//! the processor, the picture and audio units and the cartridge mappers,
//! advancing in a fixed clock ratio.

use vstd::prelude::*;
use crate::audio::{Audio, Sample, CLIENT_BUFFER_LENGTH};
use crate::button::Button;
use crate::cpu::Cpu;
use crate::apu::ApuState;
use crate::cpu_state::CpuState;
use crate::display::{picture_after, rgba_of, Display, RGBA_CAPACITY};
use crate::input::Input;
use crate::rom::Rom;

pub mod apu;
pub mod audio;
pub mod bits;
pub mod button;
pub mod cpu;
pub mod cpu_laws;
pub mod cpu_state;
pub mod default_audio;
pub mod default_display;
pub mod default_input;
pub mod display;
pub mod input;
pub mod joypad;
pub mod mapper;
pub mod memory;
pub mod operation;
pub mod ppu;
pub mod ppu_laws;
pub mod ppu_state;
pub mod register;
pub mod rom;
pub mod sprite;
pub mod wasm_display;
pub mod wasm_input;

verus! {

/// The console, with a button source of type `I`, a display of type `D`
/// and a loudspeaker of type `A`.
pub struct Nes<I: Input, D: Display, A: Audio> {
    cpu: Cpu<I, D, A>,
}

impl<I: Input, D: Display, A: Audio> Nes<I, D, A> {
    /// What the console holds.
    pub closed spec fn view(&self) -> CpuState {
        self.cpu@
    }

    pub closed spec fn wf(&self) -> bool {
        self.cpu.wf()
    }

    /// A console that is switched off and holds no cartridge.
    pub fn new(input: I, display: D, audio: A) -> (nes: Nes<I, D, A>)
        requires
            input.wf(),
            display.wf(),
            audio.wf(),
        ensures
            nes.wf(),
            nes@ == Cpu::<I, D, A>::initial(input.pending(), display.log(), audio.state()),
    {
        Nes { cpu: Cpu::new(input, display, audio) }
    }

    /// Puts a cartridge into the slot and tells whether it was accepted:
    /// a cartridge whose header is not that of an iNES image, or whose
    /// mapper the console does not know, is refused.
    pub fn set_rom(&mut self, rom: Rom) -> (accepted: bool)
        requires
            old(self).wf(),
            rom@.wf(),
        ensures
            final(self).wf(),
            accepted == rom@.valid(),
            final(self)@ == if rom@.valid() {
                CpuState { rom: rom@, ..old(self)@ }
            } else {
                old(self)@
            },
    {
        self.cpu.set_rom(rom)
    }

    /// Switches the console on. Without a valid cartridge nothing happens.
    pub fn bootup(&mut self)
        requires
            old(self).wf(),
        ensures
            final(self).wf(),
            final(self)@ == old(self)@.after_bootup(),
            final(self)@.stall_cycles == old(self)@.stall_cycles,
    {
        self.cpu.bootup();
    }

    /// The reset button.
    pub fn reset(&mut self)
        requires
            old(self).wf(),
        ensures
            final(self).wf(),
            final(self)@ == old(self)@.after_reset(),
            final(self)@.stall_cycles == old(self)@.stall_cycles,
    {
        self.cpu.reset();
    }

    /// Runs one instruction and lets the other units catch up. The picture
    /// unit reaches at most one new frame on the way, as long as the stall
    /// that the console came with is small.
    pub fn step(&mut self)
        requires
            old(self).wf(),
        ensures
            final(self).wf(),
            final(self)@ == old(self)@.after_step(),
            final(self)@.ppu.frame != old(self)@.ppu.frame || final(self)@.ppu.position() > old(self)@.ppu.position(),
            old(self)@.rested() ==> final(self)@.rested() && (final(self)@.ppu.frame == old(self)@.ppu.frame
                || final(self)@.ppu.frame == old(self)@.ppu.frame.wrapping_add(1)),
    {
        self.cpu.step();
    }

    /// Takes the button events that wait, then runs until the picture unit
    /// has reached another frame: the frame counter ends one higher than
    /// the button events left it, as long as the stall that the console
    /// came with is small, which steps and frames keep.
    pub fn step_frame(&mut self)
        requires
            old(self).wf(),
        ensures
            final(self).wf(),
            exists|n: nat| #[trigger]
                old(self)@.after_inputs().frame_ends_after(n) && final(self)@ == old(self)@.after_inputs().after_steps(n),
            final(self)@ == old(self)@.after_step_frame(),
            old(self)@.rested() ==> final(self)@.rested() && final(self)@.ppu.frame == old(self)@.after_inputs().ppu.frame.wrapping_add(1),
            old(self)@.rested() && old(self)@.input.len() == 0 ==> final(self)@.ppu.frame == old(self)@.ppu.frame.wrapping_add(1),
    {
        self.cpu.step_frame();
    }

    /// Writes the picture into `pixels`, four bytes for each pixel.
    pub fn copy_pixels(&self, pixels: &mut [u8])
        requires
            self.wf(),
            old(pixels)@.len() >= RGBA_CAPACITY,
        ensures
            final(pixels)@ == rgba_of(picture_after(self@.ppu.display), old(pixels)@),
    {
        self.cpu.get_ppu().get_display().copy_to_rgba_pixels(pixels);
    }

    /// Hands the oldest samples that the loudspeaker holds over to `buffer`.
    pub fn copy_sample_buffer(&mut self, buffer: &mut [Sample])
        requires
            old(self).wf(),
            old(buffer)@.len() >= CLIENT_BUFFER_LENGTH,
        ensures
            final(self).wf(),
            final(self)@ == (CpuState {
                apu: ApuState { audio: old(self)@.apu.audio.after_pull(), ..old(self)@.apu },
                ..old(self)@
            }),
            final(buffer)@ == old(self)@.apu.audio.pulled_into(old(buffer)@),
    {
        self.cpu.copy_sample_buffer(buffer);
    }

    /// Queues the press of a button.
    pub fn press_button(&mut self, button: Button)
        requires
            old(self).wf(),
        ensures
            final(self).wf(),
            final(self)@ == (CpuState {
                input: old(self)@.input.push((button, crate::button::Event::Press)),
                ..old(self)@
            }),
    {
        self.cpu.press_button(button);
    }

    /// Queues the release of a button.
    pub fn release_button(&mut self, button: Button)
        requires
            old(self).wf(),
        ensures
            final(self).wf(),
            final(self)@ == (CpuState {
                input: old(self)@.input.push((button, crate::button::Event::Release)),
                ..old(self)@
            }),
    {
        self.cpu.release_button(button);
    }

    /// The processor and what hangs on it.
    pub fn get_cpu(&self) -> (cpu: &Cpu<I, D, A>)
        ensures
            cpu@ == self@,
            self.wf() ==> cpu.wf(),
    {
        &self.cpu
    }

    pub fn is_power_on(&self) -> (on: bool)
        ensures
            on == self@.power_on,
    {
        self.cpu.is_power_on()
    }

    /// The registers, the instruction that the program counter points at
    /// and its operand as text. Writing this down reads from the bus like
    /// the processor does.
    pub fn dump(&mut self) -> (text: String)
        requires
            old(self).wf(),
        ensures
            final(self).wf(),
            (final(self)@, text@) == old(self)@.dump_spec(),
    {
        self.cpu.dump()
    }

    /// Reads a byte from the bus, as the processor does.
    pub fn load(&mut self, address: u16) -> (value: u8)
        requires
            old(self).wf(),
        ensures
            final(self).wf(),
            value == old(self)@.read_value(address),
            final(self)@ == old(self)@.after_load(address),
            final(self)@.stall_cycles == old(self)@.stall_cycles,
    {
        self.cpu.load(address)
    }

    /// Writes a byte to the bus, as the processor does.
    pub fn store(&mut self, address: u16, value: u8)
        requires
            old(self).wf(),
        ensures
            final(self).wf(),
            final(self)@ == old(self)@.after_store(address, value),
            address != 0x4014 ==> final(self)@.stall_cycles == old(self)@.stall_cycles,
            final(self)@.stall_cycles <= old(self)@.stall_cycles + 514,
    {
        self.cpu.store(address, value);
    }
}

} // verus!
