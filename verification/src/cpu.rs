//! The 6502 processor of the console.

use vstd::prelude::*;
use crate::apu::{lemma_cycles_alternate, Apu};
use crate::audio::{Audio, AudioState, Sample};
use crate::button;
use crate::cpu_state::{
    bracketed,
    bracketed_at,
    interrupt_handler_address_spec,
    status_text,
    modified,
    to_joypad_button_spec,
    with_c,
    with_n,
    with_z,
    CpuState,
    Interrupts,
    DMA_STALL_CYCLES,
    DMC_STALL_CYCLES,
    sign_extended,
    page_crossed,
};
use crate::display::Display;
use crate::input::Input;
use crate::joypad;
use crate::joypad::Joypad;
use crate::memory::Memory;
use crate::operation::{
    instruction_name,
    operation,
    operation_spec,
    AddressingModes,
    InstructionTypes,
    Operation,
};
use crate::ppu::Ppu;
use crate::ppu_state::{lemma_step_moves_clock, PpuState, DOTS_PER_FRAME};
use crate::apu::ApuState;
use crate::register::{append_hex_u16, append_hex_u8, hex_text_u16, hex_text_u8, Register};
use crate::rom::{Rom, RomState, HEADER_SIZE};
use vstd::string::StringExecFns;

verus! {

/// The processor status register P, viewed as its byte: N V - B D I Z C
/// from bit 7 down.
pub struct CpuStatusRegister {
    pub register: Register<u8>,
}

impl CpuStatusRegister {
    pub open spec fn view(&self) -> u8 {
        self.register@
    }

    pub fn new() -> (p: CpuStatusRegister)
        ensures
            p@ == 0,
    {
        CpuStatusRegister { register: Register::<u8>::new() }
    }

    pub fn load(&self) -> (value: u8)
        ensures
            value == self@,
    {
        self.register.load()
    }

    pub fn store(&mut self, value: u8)
        ensures
            final(self)@ == value,
    {
        self.register.store(value);
    }

    /// The flags as text: the byte, then in brackets a letter for each flag
    /// that is set and a dash for each that is clear.
    pub fn dump(&self) -> (text: String)
        ensures
            text@ == status_text(self@),
    {
        proof {
            reveal_strlit("(");
            reveal_strlit(")");
            reveal_strlit("N");
            reveal_strlit("V");
            reveal_strlit("A");
            reveal_strlit("B");
            reveal_strlit("D");
            reveal_strlit("I");
            reveal_strlit("Z");
            reveal_strlit("C");
        }
        let mut text = self.register.dump();
        text.append("(");
        append_flag(&mut text, self.is_n(), "N");
        append_flag(&mut text, self.is_v(), "V");
        append_flag(&mut text, self.is_a(), "A");
        append_flag(&mut text, self.is_b(), "B");
        append_flag(&mut text, self.is_d(), "D");
        append_flag(&mut text, self.is_i(), "I");
        append_flag(&mut text, self.is_z(), "Z");
        append_flag(&mut text, self.is_c(), "C");
        text.append(")");
        text
    }

    /// Bit 7: negative.
    pub fn is_n(&self) -> (set: bool)
        ensures
            set == (self@ & 0x80 != 0),
    {
        self.register.is_bit_set(7)
    }

    pub fn set_n(&mut self)
        ensures
            final(self)@ == old(self)@ | 0x80,
    {
        self.register.set_bit(7);
    }

    pub fn clear_n(&mut self)
        ensures
            final(self)@ == old(self)@ & !0x80u8,
    {
        self.register.clear_bit(7);
    }

    /// Bit 6: overflow.
    pub fn is_v(&self) -> (set: bool)
        ensures
            set == (self@ & 0x40 != 0),
    {
        self.register.is_bit_set(6)
    }

    pub fn set_v(&mut self)
        ensures
            final(self)@ == old(self)@ | 0x40,
    {
        self.register.set_bit(6);
    }

    pub fn clear_v(&mut self)
        ensures
            final(self)@ == old(self)@ & !0x40u8,
    {
        self.register.clear_bit(6);
    }

    /// Bit 5: unused; set whenever the flags are pushed.
    pub fn is_a(&self) -> (set: bool)
        ensures
            set == (self@ & 0x20 != 0),
    {
        self.register.is_bit_set(5)
    }

    pub fn set_a(&mut self)
        ensures
            final(self)@ == old(self)@ | 0x20,
    {
        self.register.set_bit(5);
    }

    pub fn clear_a(&mut self)
        ensures
            final(self)@ == old(self)@ & !0x20u8,
    {
        self.register.clear_bit(5);
    }

    /// Bit 4: break.
    pub fn is_b(&self) -> (set: bool)
        ensures
            set == (self@ & 0x10 != 0),
    {
        self.register.is_bit_set(4)
    }

    pub fn set_b(&mut self)
        ensures
            final(self)@ == old(self)@ | 0x10,
    {
        self.register.set_bit(4);
    }

    pub fn clear_b(&mut self)
        ensures
            final(self)@ == old(self)@ & !0x10u8,
    {
        self.register.clear_bit(4);
    }

    /// Bit 3: decimal.
    pub fn is_d(&self) -> (set: bool)
        ensures
            set == (self@ & 0x08 != 0),
    {
        self.register.is_bit_set(3)
    }

    pub fn set_d(&mut self)
        ensures
            final(self)@ == old(self)@ | 0x08,
    {
        self.register.set_bit(3);
    }

    pub fn clear_d(&mut self)
        ensures
            final(self)@ == old(self)@ & !0x08u8,
    {
        self.register.clear_bit(3);
    }

    /// Bit 2: interrupt disable.
    pub fn is_i(&self) -> (set: bool)
        ensures
            set == (self@ & 0x04 != 0),
    {
        self.register.is_bit_set(2)
    }

    pub fn set_i(&mut self)
        ensures
            final(self)@ == old(self)@ | 0x04,
    {
        self.register.set_bit(2);
    }

    pub fn clear_i(&mut self)
        ensures
            final(self)@ == old(self)@ & !0x04u8,
    {
        self.register.clear_bit(2);
    }

    /// Bit 1: zero.
    pub fn is_z(&self) -> (set: bool)
        ensures
            set == (self@ & 0x02 != 0),
    {
        self.register.is_bit_set(1)
    }

    pub fn set_z(&mut self)
        ensures
            final(self)@ == old(self)@ | 0x02,
    {
        self.register.set_bit(1);
    }

    pub fn clear_z(&mut self)
        ensures
            final(self)@ == old(self)@ & !0x02u8,
    {
        self.register.clear_bit(1);
    }

    /// Bit 0: carry.
    pub fn is_c(&self) -> (set: bool)
        ensures
            set == (self@ & 0x01 != 0),
    {
        self.register.is_bit_set(0)
    }

    pub fn set_c(&mut self)
        ensures
            final(self)@ == old(self)@ | 0x01,
    {
        self.register.set_bit(0);
    }

    pub fn clear_c(&mut self)
        ensures
            final(self)@ == old(self)@ & !0x01u8,
    {
        self.register.clear_bit(0);
    }
}


pub fn to_joypad_button(button: button::Button) -> (joypad_button: joypad::Button)
    ensures
        joypad_button == to_joypad_button_spec(button),
{
    match button {
        button::Button::Joypad1A | button::Button::Joypad2A => joypad::Button::A,
        button::Button::Joypad1B | button::Button::Joypad2B => joypad::Button::B,
        button::Button::Joypad1Up | button::Button::Joypad2Up => joypad::Button::Up,
        button::Button::Joypad1Down | button::Button::Joypad2Down => joypad::Button::Down,
        button::Button::Joypad1Left | button::Button::Joypad2Left => joypad::Button::Left,
        button::Button::Joypad1Right | button::Button::Joypad2Right => joypad::Button::Right,
        button::Button::Start => joypad::Button::Start,
        button::Button::Select => joypad::Button::Select,
        _ => joypad::Button::A,
    }
}

pub fn interrupt_handler_address(interrupt_type: Interrupts) -> (address: u16)
    ensures
        address == interrupt_handler_address_spec(interrupt_type),
{
    match interrupt_type {
        Interrupts::NMI => 0xFFFA,
        Interrupts::RESET => 0xFFFC,
        Interrupts::IRQ => 0xFFFE,
        Interrupts::BRK => 0xFFFE,
    }
}

proof fn lemma_bus_bits(address: u16, value: u8)
    by (bit_vector)
    ensures
        address & 0x07FF < 0x800,
        ((value as u16) << 8u8) <= 0xFF00,
        address & 0xff < 0x100,
{
}

/// Appends the letter of a flag that is set, or a dash.
fn append_flag(text: &mut String, set: bool, letter: &'static str)
    requires
        letter@.len() == 1,
    ensures
        final(text)@ == old(text)@.push(
            if set {
                letter@[0]
            } else {
                '-'
            },
        ),
{
    proof {
        reveal_strlit("-");
    }
    let mark = if set {
        letter
    } else {
        "-"
    };
    text.append(mark);
    assert(text@ =~= old(text)@.push(mark@[0]));
}

/// Appends a byte in brackets and a blank.
fn append_bracketed(text: &mut String, value: u8)
    ensures
        final(text)@ == old(text)@ + bracketed(value),
{
    let mut part = String::from_str("(");
    append_hex_u8(&mut part, value);
    part.append(") ");
    text.append(part.as_str());
}

/// Appends an address and the byte found there, in brackets, and a blank.
fn append_bracketed_at(text: &mut String, address: u16, value: u8)
    ensures
        final(text)@ == old(text)@ + bracketed_at(address, value),
{
    let mut part = String::from_str("(");
    append_hex_u16(&mut part, address);
    part.append("(");
    append_hex_u8(&mut part, value);
    part.append(")) ");
    text.append(part.as_str());
}

/// The console: the processor with its memory, the picture unit, the
/// audio unit, two controllers and the cartridge slot.
pub struct Cpu<I: Input, D: Display, A: Audio> {
    power_on: bool,
    pc: Register<u16>,
    sp: Register<u8>,
    a: Register<u8>,
    x: Register<u8>,
    y: Register<u8>,
    p: CpuStatusRegister,
    ram: Memory,
    stall_cycles: u16,
    invalid_operations: u32,
    input: I,
    ppu: Ppu<D>,
    apu: Apu<A>,
    joypad1: Joypad,
    joypad2: Joypad,
    rom: Rom,
}

impl<I: Input, D: Display, A: Audio> Cpu<I, D, A> {
    pub closed spec fn view(&self) -> CpuState {
        CpuState {
            power_on: self.power_on,
            pc: self.pc@,
            sp: self.sp@,
            a: self.a@,
            x: self.x@,
            y: self.y@,
            p: self.p@,
            ram: self.ram@,
            stall_cycles: self.stall_cycles,
            invalid_operations: self.invalid_operations,
            input: self.input.pending(),
            ppu: self.ppu@,
            apu: self.apu@,
            joypad1: self.joypad1@,
            joypad2: self.joypad2@,
            rom: self.rom@,
        }
    }

    /// The button source, the display and the loudspeaker are in order.
    pub closed spec fn parts_wf(&self) -> bool {
        self.input.wf() && self.ppu.display_wf() && self.apu.audio_wf()
    }

    pub open spec fn wf(&self) -> bool {
        self@.wf() && self.parts_wf()
    }

    /// A console that is switched off and holds no cartridge.
    pub open spec fn initial(
        input: Seq<(button::Button, button::Event)>,
        display: Seq<crate::display::DisplayEvent>,
        audio: AudioState,
    ) -> CpuState {
        CpuState {
            power_on: false,
            pc: 0,
            sp: 0,
            a: 0,
            x: 0,
            y: 0,
            p: 0,
            ram: Seq::new(0x10000, |i: int| 0u8),
            stall_cycles: 0,
            invalid_operations: 0,
            input,
            ppu: PpuState::initial(display),
            apu: ApuState::initial(audio),
            joypad1: joypad::JoypadState::initial(),
            joypad2: joypad::JoypadState::initial(),
            rom: RomState::of_image(Seq::new(HEADER_SIZE as nat, |i: int| 0u8)),
        }
    }

    pub fn new(input: I, display: D, audio: A) -> (cpu: Cpu<I, D, A>)
        requires
            input.wf(),
            display.wf(),
            audio.wf(),
        ensures
            cpu.wf(),
            cpu@ == Self::initial(input.pending(), display.log(), audio.state()),
    {
        let image = vec![0u8; 16];
        assert(image@ =~= Seq::new(HEADER_SIZE as nat, |i: int| 0u8));
        let cpu = Cpu {
            power_on: false,
            pc: Register::<u16>::new(),
            sp: Register::<u8>::new(),
            a: Register::<u8>::new(),
            x: Register::<u8>::new(),
            y: Register::<u8>::new(),
            p: CpuStatusRegister::new(),
            ram: Memory::new(vec![0u8; 65536]),
            stall_cycles: 0,
            invalid_operations: 0,
            input: input,
            ppu: Ppu::new(display),
            apu: Apu::new(audio),
            joypad1: Joypad::new(),
            joypad2: Joypad::new(),
            rom: Rom::new(image),
        };
        assert(cpu@.ram =~= Seq::new(0x10000, |i: int| 0u8));
        cpu
    }

    /// Puts a cartridge into the slot. A cartridge that is not valid is
    /// refused, and the slot keeps what it held.
    pub fn set_rom(&mut self, rom: Rom) -> (accepted: bool)
        requires
            old(self).wf(),
            rom@.wf(),
        ensures
            final(self).wf(),
            accepted == rom@.valid(),
            final(self)@ == if rom@.valid() {
                CpuState { rom: rom@, ..old(self)@ }
            } else {
                old(self)@
            },
    {
        if rom.valid() {
            self.rom = rom;
            true
        } else {
            false
        }
    }

    /// Switches the console on. Without a valid cartridge nothing happens.
    pub fn bootup(&mut self)
        requires
            old(self).wf(),
        ensures
            final(self)@.stall_cycles == old(self)@.stall_cycles,
            final(self).wf(),
            final(self)@.ppu_clock() == old(self)@.ppu_clock(),
            final(self)@ == old(self)@.after_bootup(),
    {
        proof {
            reveal(CpuState::after_bootup);
        }
        if !self.rom.valid() {
            return ;
        }
        self.power_on = true;
        self.bootup_internal();
        self.ppu.bootup();
        self.apu.bootup();
    }

    fn bootup_internal(&mut self)
        requires
            old(self).wf(),
        ensures
            final(self)@.stall_cycles == old(self)@.stall_cycles,
            final(self).wf(),
            final(self)@.ppu_clock() == old(self)@.ppu_clock(),
            final(self)@ == old(self)@.after_bootup_internal(),
    {
        proof {
            reveal(CpuState::after_bootup_internal);
        }
        self.p.store(0x34);
        self.a.clear();
        self.x.clear();
        self.y.clear();
        self.sp.store(0xFD);
        self.ram.clear();
        let ghost start = self@;
        let mut i: u16 = 0;
        while i < 0x10
            invariant
                i <= 0x10,
                self.wf(),
                self@.ppu_clock() == start.ppu_clock(),
                self@.stall_cycles == start.stall_cycles,
                self@.after_bootup_stores(i as nat) == start.after_bootup_stores(0),
            decreases 0x10 - i,
        {
            self.store(0x4000 + i, 0);
            i += 1;
        }
        self.store(0x4015, 0);
        self.store(0x4017, 0);
        self.interrupt(Interrupts::RESET);
    }

    /// The reset button: SP goes down by 3, I is set, the picture and
    /// audio units are reset and the program starts again.
    pub fn reset(&mut self)
        requires
            old(self).wf(),
        ensures
            final(self)@.stall_cycles == old(self)@.stall_cycles,
            final(self).wf(),
            final(self)@ == old(self)@.after_reset(),
            final(self)@.input == old(self)@.input,
    {
        proof {
            reveal(CpuState::after_reset);
        }
        self.reset_internal();
        self.ppu.reset();
        self.apu.reset();
        self.interrupt(Interrupts::RESET);
    }

    pub fn is_power_on(&self) -> (on: bool)
        ensures
            on == self@.power_on,
    {
        self.power_on
    }

    fn reset_internal(&mut self)
        requires
            old(self).wf(),
        ensures
            final(self)@.stall_cycles == old(self)@.stall_cycles,
            final(self).wf(),
            final(self)@.ppu_clock() == old(self)@.ppu_clock(),
            final(self)@ == old(self)@.after_reset_internal(),
            final(self)@.keeps_switches(old(self)@),
    {
        proof {
            reveal(CpuState::after_reset_internal);
        }
        self.sp.sub(3);
        self.p.set_i();
    }

    pub fn get_ppu(&self) -> (ppu: &Ppu<D>)
        ensures
            ppu@ == self@.ppu,
            self.wf() ==> ppu.wf(),
    {
        &self.ppu
    }

    pub fn get_apu(&self) -> (apu: &Apu<A>)
        ensures
            apu@ == self@.apu,
            self.wf() ==> apu.wf(),
    {
        &self.apu
    }

    /// The program counter.
    pub fn pc(&self) -> (value: u16)
        ensures
            value == self@.pc,
    {
        self.pc.load()
    }

    /// The stack pointer.
    pub fn sp(&self) -> (value: u8)
        ensures
            value == self@.sp,
    {
        self.sp.load()
    }

    /// The accumulator.
    pub fn a(&self) -> (value: u8)
        ensures
            value == self@.a,
    {
        self.a.load()
    }

    /// The index register X.
    pub fn x(&self) -> (value: u8)
        ensures
            value == self@.x,
    {
        self.x.load()
    }

    /// The index register Y.
    pub fn y(&self) -> (value: u8)
        ensures
            value == self@.y,
    {
        self.y.load()
    }

    /// The status register.
    pub fn p(&self) -> (value: u8)
        ensures
            value == self@.p,
    {
        self.p.load()
    }

    /// How many operation codes that are no instruction have been run.
    pub fn invalid_operations(&self) -> (count: u32)
        ensures
            count == self@.invalid_operations,
    {
        self.invalid_operations
    }

    /// Queues the press of a button.
    pub fn press_button(&mut self, button: button::Button)
        requires
            old(self).wf(),
        ensures
            final(self).wf(),
            final(self)@.ppu_clock() == old(self)@.ppu_clock(),
            final(self)@ == (CpuState {
                input: old(self)@.input.push((button, button::Event::Press)),
                ..old(self)@
            }),
    {
        self.input.press(button);
    }

    /// Queues the release of a button.
    pub fn release_button(&mut self, button: button::Button)
        requires
            old(self).wf(),
        ensures
            final(self).wf(),
            final(self)@.ppu_clock() == old(self)@.ppu_clock(),
            final(self)@ == (CpuState {
                input: old(self)@.input.push((button, button::Event::Release)),
                ..old(self)@
            }),
    {
        self.input.release(button);
    }

    /// Hands the oldest samples that the loudspeaker holds over to `buffer`.
    pub fn copy_sample_buffer(&mut self, buffer: &mut [Sample])
        requires
            old(self).wf(),
            old(buffer)@.len() >= crate::audio::CLIENT_BUFFER_LENGTH,
        ensures
            final(self).wf(),
            final(self)@ == (CpuState {
                apu: ApuState { audio: old(self)@.apu.audio.after_pull(), ..old(self)@.apu },
                ..old(self)@
            }),
            final(buffer)@ == old(self)@.apu.audio.pulled_into(old(buffer)@),
    {
        self.apu.copy_sample_buffer(buffer);
    }

    /// Runs one instruction, after the interrupts that wait, and lets the
    /// picture unit run three dots and the audio unit one cycle for each
    /// cycle that this has taken. Either the picture unit has reached
    /// another frame or it is further on in its frame.
    pub fn step(&mut self)
        requires
            old(self).wf(),
        ensures
            final(self).wf(),
            final(self)@ == old(self)@.after_step(),
            final(self)@.ppu.frame != old(self)@.ppu.frame || final(self)@.ppu.position() > old(self)@.ppu.position(),
            old(self)@.rested() ==> final(self)@.rested() && (final(self)@.ppu.frame == old(self)@.ppu.frame
                || final(self)@.ppu.frame == old(self)@.ppu.frame.wrapping_add(1)),
    {
        proof {
            reveal(CpuState::after_step);
            reveal(CpuState::after_ppu_steps);
            reveal(CpuState::after_apu_step);
        }
        let cycles = self.step_internal();
        let n: u32 = cycles as u32 * 3;
        let ghost start = self@;
        let ghost mut wraps: int = 0;
        let mut k: u32 = 0;
        while k < n
            invariant
                k <= n,
                n == 3 * cycles,
                self.wf(),
                self@ == start.after_ppu_steps(k as nat),
                0 <= wraps <= k,
                self@.ppu.position() + wraps * DOTS_PER_FRAME == start.ppu.position() + k,
                self@.ppu.frame as int == (start.ppu.frame + wraps) % 0x1_0000_0000,
                self@.stall_cycles == 0,
            decreases n - k,
        {
            proof {
                reveal(CpuState::after_ppu_steps);
                lemma_step_moves_clock(self.ppu@, self.rom@);
                if self@.ppu.position() + 1 >= DOTS_PER_FRAME {
                    wraps = wraps + 1;
                }
            }
            self.ppu.step(&mut self.rom);
            k += 1;
        }
        let ghost mid = self@;
        let ghost mut fetches: int = 0;
        let mut j: u16 = 0;
        while j < cycles
            invariant
                j <= cycles,
                self.wf(),
                self@.ppu_clock() == mid.ppu_clock(),
                self@ == mid.after_apu_steps(j as nat),
                0 <= fetches,
                self@.stall_cycles == 4 * fetches,
                8 * fetches + self@.apu.dmc.fetch_credit() <= j + mid.apu.dmc.fetch_credit(),
                mid.apu.dmc.fetch_credit() <= 16,
            decreases cycles - j,
        {
            proof {
                reveal(CpuState::after_apu_step);
                lemma_cycles_alternate(self@.apu.cycle);
                if self@.apu.cycle % 2 == 1 && self@.apu.dmc.needs_cpu_memory_data_spec() {
                    fetches = fetches + 1;
                }
            }
            let dmc_sample_data = if self.apu.dmc_needs_cpu_memory_data() {
                self.stall_cycles = self.stall_cycles.saturating_add(DMC_STALL_CYCLES);
                let address = self.apu.dmc_sample_address();
                self.load(address)
            } else {
                0
            };
            self.apu.step(dmc_sample_data);
            j += 1;
        }
    }

    /// Takes the button events that wait, then steps until the picture
    /// unit has reached another frame.
    pub fn step_frame(&mut self)
        requires
            old(self).wf(),
        ensures
            final(self).wf(),
            exists|n: nat| #[trigger]
                old(self)@.after_inputs().frame_ends_after(n) && final(self)@ == old(self)@.after_inputs().after_steps(n),
            final(self)@ == old(self)@.after_step_frame(),
            old(self)@.rested() ==> final(self)@.rested() && final(self)@.ppu.frame == old(self)@.after_inputs().ppu.frame.wrapping_add(1),
    {
        self.handle_inputs();
        let ppu_frame = self.ppu.frame();
        let ghost start = self@;
        let ghost mut n: nat = 0;
        loop
            invariant_except_break
                self@.ppu.frame == ppu_frame,
                forall|m: nat| 1 <= m <= n ==> (#[trigger] start.after_steps(m)).ppu.frame == ppu_frame,
            invariant
                self.wf(),
                start.ppu.frame == ppu_frame,
                self@ == start.after_steps(n),
                start.rested() ==> self@.rested(),
            ensures
                start.frame_ends_after(n),
                start.rested() ==> self@.ppu.frame == ppu_frame.wrapping_add(1),
            decreases DOTS_PER_FRAME - self@.ppu.position(),
        {
            self.step();
            proof {
                n = n + 1;
            }
            if ppu_frame != self.ppu.frame() {
                break ;
            }
        }
        proof {
            crate::cpu_laws::lemma_frame_end_is_unique(start, n, n);
        }
    }

    fn handle_inputs(&mut self)
        requires
            old(self).wf(),
        ensures
            final(self)@.stall_cycles == old(self)@.stall_cycles,
            final(self).wf(),
            final(self)@ == old(self)@.after_inputs(),
    {
        proof {
            reveal(CpuState::after_input);
        }
        loop
            invariant
                self.wf(),
                self@.stall_cycles == old(self)@.stall_cycles,
                self@.after_inputs() == old(self)@.after_inputs(),
            ensures
                self@ == old(self)@.after_inputs(),
            decreases self@.input.len(),
        {
            proof {
                reveal(CpuState::after_input);
            }
            let ghost before = self@;
            let next = self.input.get_input();
            assert(next.is_some() ==> before.after_inputs() == (CpuState {
                input: before.input.drop_first(),
                ..(CpuState { input: before.input.drop_first(), ..before }).after_input(
                    before.input[0].0,
                    before.input[0].1,
                )
            }).after_inputs());
            match next {
                None => {
                    break ;
                },
                Some((button, event)) => {
                    match button {
                        button::Button::Poweroff => {
                            self.power_on = false;
                        },
                        button::Button::Reset => {
                            self.reset();
                        },
                        button::Button::Joypad2A
                        | button::Button::Joypad2B
                        | button::Button::Joypad2Up
                        | button::Button::Joypad2Down
                        | button::Button::Joypad2Left
                        | button::Button::Joypad2Right => {
                            self.joypad2.handle_input(to_joypad_button(button), event);
                        },
                        _ => {
                            self.joypad1.handle_input(to_joypad_button(button), event);
                        },
                    }
                },
            }
        }
    }

    fn step_internal(&mut self) -> (cycles: u16)
        requires
            old(self).wf(),
        ensures
            cycles <= old(self)@.stall_cycles + 522,
            final(self)@.stall_cycles == 0,
            final(self).wf(),
            final(self)@.ppu_clock() == old(self)@.ppu_clock(),
            final(self)@ == old(self)@.after_step_internal(),
            cycles == old(self)@.step_cycles(),
            cycles >= 1,
    {
        proof {
            reveal(CpuState::after_step_internal);
            reveal(CpuState::step_cycles);
            reveal(CpuState::after_instruction);
            reveal(CpuState::fetched);
        }
        self.serve_pending_interrupts();
        let opc = self.fetch();
        let op = self.decode(opc);
        self.operate(&op);
        let stall_cycles = self.stall_cycles;
        self.stall_cycles = 0;
        stall_cycles.saturating_add(op.cycle as u16)
    }

    /// Serves the interrupts that wait: the non-maskable one first.
    fn serve_pending_interrupts(&mut self)
        requires
            old(self).wf(),
        ensures
            final(self)@.stall_cycles == old(self)@.stall_cycles,
            final(self).wf(),
            final(self)@.ppu_clock() == old(self)@.ppu_clock(),
            final(self)@ == old(self)@.after_pending_interrupts(),
    {
        proof {
            reveal(CpuState::after_pending_interrupts);
        }
        if self.ppu.nmi_interrupted() {
            self.ppu.clear_nmi_interrupted();
            self.interrupt(Interrupts::NMI);
        }
        if self.ppu.irq_interrupted() {
            self.ppu.clear_irq_interrupted();
            self.interrupt(Interrupts::IRQ);
        }
        if self.apu.irq_interrupted() {
            self.apu.clear_irq_interrupted();
            self.interrupt(Interrupts::IRQ);
        }
    }

    fn fetch(&mut self) -> (opc: u8)
        requires
            old(self).wf(),
        ensures
            final(self)@.keeps_axyp(old(self)@),
            final(self)@.keeps_switches(old(self)@),
            final(self)@.sp == old(self)@.sp,
            final(self)@.stall_cycles == old(self)@.stall_cycles,
            final(self).wf(),
            final(self)@.ppu_clock() == old(self)@.ppu_clock(),
            opc == old(self)@.read_value(old(self)@.pc),
            final(self)@ == old(self)@.after_fetch(),
    {
        proof {
            reveal(CpuState::after_fetch);
        }
        let opc = self.load(self.pc.load());
        self.pc.increment();
        opc
    }

    fn decode(&self, opc: u8) -> (op: Operation)
        ensures
            op == operation_spec(opc),
            1 <= op.cycle <= 7,
    {
        operation(opc)
    }

    fn jump_to_interrupt_handler(&mut self, interrupt_type: Interrupts)
        requires
            old(self).wf(),
        ensures
            final(self)@.keeps_axyp(old(self)@),
            final(self)@.keeps_switches(old(self)@),
            final(self)@.sp == old(self)@.sp,
            final(self)@.stall_cycles == old(self)@.stall_cycles,
            final(self).wf(),
            final(self)@.ppu_clock() == old(self)@.ppu_clock(),
            final(self)@ == old(self)@.after_jump_to_interrupt_handler(interrupt_type),
    {
        proof {
            reveal(CpuState::after_jump_to_interrupt_handler);
        }
        let address = interrupt_handler_address(interrupt_type);
        let value = self.load_2bytes(address);
        self.pc.store(value);
    }

    /// Reads the signed distance of a branch and, where `flag` holds, takes
    /// it: one cycle more, and another where the target lies in another
    /// page than the instruction that follows.
    pub fn do_branch(&mut self, op: &Operation, flag: bool)
        requires
            old(self).wf(),
        ensures
            op.addressing_mode == AddressingModes::Relative ==> ({
                let next = old(self)@.pc.wrapping_add(1);
                let distance = sign_extended(old(self)@.read_value(old(self)@.pc) as u16);
                &&& !flag ==> final(self)@.pc == next && final(self)@.stall_cycles == old(self)@.stall_cycles
                &&& flag ==> final(self)@.pc == next.wrapping_add(distance) && final(self)@.stall_cycles == old(self)@.stall_cycles.saturating_add(
                    if page_crossed(next, final(self)@.pc) {
                        2
                    } else {
                        1
                    },
                )
            }),
            final(self)@.stall_cycles <= old(self)@.stall_cycles + 3,
            final(self).wf(),
            final(self)@.ppu_clock() == old(self)@.ppu_clock(),
            final(self)@ == old(self)@.after_branch(*op, flag),
    {
        proof {
            reveal(CpuState::after_branch);
            if op.addressing_mode == AddressingModes::Relative {
                crate::cpu_laws::lemma_branch_moves_and_costs(self@, *op, flag);
            }
        }
        let result = self.load_with_addressing_mode(op);
        if flag {
            self.stall_cycles = self.stall_cycles.saturating_add(1);
            let current_page = self.pc.load() & 0xff00;
            self.pc.add(result);
            if current_page != (self.pc.load() & 0xff00) {
                self.stall_cycles = self.stall_cycles.saturating_add(1);
            }
        }
    }

    /// Runs an instruction whose operation code has been fetched.
    pub fn operate(&mut self, op: &Operation)
        requires
            old(self).wf(),
        ensures
            op.instruction_type == InstructionTypes::PHP ==> final(self)@ == (CpuState {
                p: old(self)@.p | 0x30,
                ram: old(self)@.ram.update(0x100 + old(self)@.sp, old(self)@.p | 0x30),
                sp: old(self)@.sp.wrapping_sub(1),
                ..old(self)@
            }),
            final(self)@.stall_cycles <= old(self)@.stall_cycles + 515,
            final(self).wf(),
            final(self)@.ppu_clock() == old(self)@.ppu_clock(),
            final(self)@ == old(self)@.after_operate(*op),
    {
        proof {
            reveal(CpuState::after_operate);
            if op.instruction_type == InstructionTypes::PHP {
                crate::cpu_laws::lemma_php_pushes_the_flags(self@, *op);
            }
        }
        match op.instruction_type {
            InstructionTypes::INV => self.invalid(),
            InstructionTypes::ADC => self.adc(op),
            InstructionTypes::SBC => self.sbc(op),
            InstructionTypes::AND | InstructionTypes::EOR | InstructionTypes::ORA => self.logic(op),
            InstructionTypes::ASL | InstructionTypes::DEC | InstructionTypes::INC => self.modify(
                op,
            ),
            InstructionTypes::BCC
            | InstructionTypes::BCS
            | InstructionTypes::BEQ
            | InstructionTypes::BMI
            | InstructionTypes::BNE
            | InstructionTypes::BPL
            | InstructionTypes::BVC
            | InstructionTypes::BVS => self.branch(op),
            InstructionTypes::BIT => self.bit(op),
            InstructionTypes::BRK => self.brk(),
            InstructionTypes::CLC
            | InstructionTypes::CLD
            | InstructionTypes::CLI
            | InstructionTypes::CLV
            | InstructionTypes::SEC
            | InstructionTypes::SED
            | InstructionTypes::SEI => self.flag_instruction(op),
            InstructionTypes::CMP | InstructionTypes::CPX | InstructionTypes::CPY => self.compare(
                op,
            ),
            InstructionTypes::DEX
            | InstructionTypes::DEY
            | InstructionTypes::INX
            | InstructionTypes::INY => self.count_register(op),
            InstructionTypes::JMP => self.jmp(op),
            InstructionTypes::JSR => self.jsr(op),
            InstructionTypes::LDA
            | InstructionTypes::LDX
            | InstructionTypes::LDY => self.load_instruction(op),
            InstructionTypes::LSR => self.lsr(op),
            InstructionTypes::NOP => {},
            InstructionTypes::PHA => self.pha(),
            InstructionTypes::PHP => self.php(),
            InstructionTypes::PLA => self.pla(),
            InstructionTypes::PLP => self.plp(),
            InstructionTypes::ROL => self.rol(op),
            InstructionTypes::ROR => self.ror(op),
            InstructionTypes::RTI => self.rti(),
            InstructionTypes::RTS => self.rts(),
            InstructionTypes::STA
            | InstructionTypes::STX
            | InstructionTypes::STY => self.store_instruction(op),
            InstructionTypes::TAX
            | InstructionTypes::TAY
            | InstructionTypes::TSX
            | InstructionTypes::TXA
            | InstructionTypes::TXS
            | InstructionTypes::TYA => self.transfer(op),
        }
    }

    fn invalid(&mut self)
        requires
            old(self).wf(),
        ensures
            final(self)@.stall_cycles == old(self)@.stall_cycles,
            final(self).wf(),
            final(self)@.ppu_clock() == old(self)@.ppu_clock(),
            final(self)@ == old(self)@.after_invalid(),
    {
        proof {
            reveal(CpuState::after_invalid);
        }
        if self.invalid_operations < u32::MAX {
            self.invalid_operations += 1;
        }
    }

    fn branch(&mut self, op: &Operation)
        requires
            old(self).wf(),
        ensures
            final(self)@.stall_cycles <= old(self)@.stall_cycles + 3,
            final(self).wf(),
            final(self)@.ppu_clock() == old(self)@.ppu_clock(),
            final(self)@ == old(self)@.after_branch(*op, old(self)@.branches(op.instruction_type)),
    {
        let flag = match op.instruction_type {
            InstructionTypes::BCC => !self.p.is_c(),
            InstructionTypes::BCS => self.p.is_c(),
            InstructionTypes::BEQ => self.p.is_z(),
            InstructionTypes::BNE => !self.p.is_z(),
            InstructionTypes::BMI => self.p.is_n(),
            InstructionTypes::BPL => !self.p.is_n(),
            InstructionTypes::BVC => !self.p.is_v(),
            _ => self.p.is_v(),
        };
        self.do_branch(op, flag);
    }

    fn brk(&mut self)
        requires
            old(self).wf(),
        ensures
            final(self)@.stall_cycles == old(self)@.stall_cycles,
            final(self).wf(),
            final(self)@.ppu_clock() == old(self)@.ppu_clock(),
            final(self)@ == old(self)@.after_brk(),
    {
        proof {
            reveal(CpuState::after_brk);
        }
        self.pc.increment();
        self.p.set_a();
        self.p.set_b();
        self.interrupt(Interrupts::BRK);
    }

    fn flag_instruction(&mut self, op: &Operation)
        requires
            old(self).wf(),
        ensures
            final(self)@.stall_cycles == old(self)@.stall_cycles,
            final(self).wf(),
            final(self)@.ppu_clock() == old(self)@.ppu_clock(),
            final(self)@ == old(self)@.after_flag_instruction(op.instruction_type),
    {
        proof {
            reveal(CpuState::after_flag_instruction);
        }
        match op.instruction_type {
            InstructionTypes::CLC => self.p.clear_c(),
            InstructionTypes::CLD => self.p.clear_d(),
            InstructionTypes::CLI => self.p.clear_i(),
            InstructionTypes::CLV => self.p.clear_v(),
            InstructionTypes::SEC => self.p.set_c(),
            InstructionTypes::SED => self.p.set_d(),
            _ => self.p.set_i(),
        }
    }

    fn jmp(&mut self, op: &Operation)
        requires
            old(self).wf(),
        ensures
            final(self)@.stall_cycles <= old(self)@.stall_cycles + 1,
            final(self).wf(),
            final(self)@.ppu_clock() == old(self)@.ppu_clock(),
            final(self)@ == old(self)@.after_jmp(*op),
    {
        proof {
            reveal(CpuState::after_jmp);
        }
        let address = self.get_address_with_addressing_mode(op);
        self.pc.store(address);
    }

    fn jsr(&mut self, op: &Operation)
        requires
            old(self).wf(),
        ensures
            final(self)@.stall_cycles <= old(self)@.stall_cycles + 1,
            final(self).wf(),
            final(self)@.ppu_clock() == old(self)@.ppu_clock(),
            final(self)@ == old(self)@.after_jsr(*op),
    {
        proof {
            reveal(CpuState::after_jsr);
        }
        let address = self.get_address_with_addressing_mode(op);
        self.pc.decrement();
        let value = self.pc.load();
        self.push_stack_2bytes(value);
        self.pc.store(address);
    }

    fn pha(&mut self)
        requires
            old(self).wf(),
        ensures
            final(self)@.stall_cycles == old(self)@.stall_cycles,
            final(self).wf(),
            final(self)@.ppu_clock() == old(self)@.ppu_clock(),
            final(self)@ == old(self)@.after_pha(),
    {
        proof {
            reveal(CpuState::after_pha);
        }
        let value = self.a.load();
        self.push_stack(value);
    }

    fn php(&mut self)
        requires
            old(self).wf(),
        ensures
            final(self)@.stall_cycles == old(self)@.stall_cycles,
            final(self).wf(),
            final(self)@.ppu_clock() == old(self)@.ppu_clock(),
            final(self)@ == old(self)@.after_php(),
    {
        proof {
            reveal(CpuState::after_php);
        }
        self.p.set_a();
        self.p.set_b();
        let value = self.p.load();
        self.push_stack(value);
    }

    fn pla(&mut self)
        requires
            old(self).wf(),
        ensures
            final(self)@.stall_cycles == old(self)@.stall_cycles,
            final(self).wf(),
            final(self)@.ppu_clock() == old(self)@.ppu_clock(),
            final(self)@ == old(self)@.after_pla(),
    {
        proof {
            reveal(CpuState::after_pla);
        }
        let result = self.pop_stack() as u16;
        self.a.store(result as u8);
        self.update_n(result);
        self.update_z(result);
    }

    fn plp(&mut self)
        requires
            old(self).wf(),
        ensures
            final(self)@.stall_cycles == old(self)@.stall_cycles,
            final(self).wf(),
            final(self)@.ppu_clock() == old(self)@.ppu_clock(),
            final(self)@ == old(self)@.after_plp(),
    {
        proof {
            reveal(CpuState::after_plp);
        }
        let value = self.pop_stack();
        self.p.store(value);
    }

    fn rti(&mut self)
        requires
            old(self).wf(),
        ensures
            final(self)@.stall_cycles == old(self)@.stall_cycles,
            final(self).wf(),
            final(self)@.ppu_clock() == old(self)@.ppu_clock(),
            final(self)@ == old(self)@.after_rti(),
    {
        proof {
            reveal(CpuState::after_rti);
        }
        let value = self.pop_stack();
        self.p.store(value);
        let value2 = self.pop_stack_2bytes();
        self.pc.store(value2);
    }

    fn rts(&mut self)
        requires
            old(self).wf(),
        ensures
            final(self)@.stall_cycles == old(self)@.stall_cycles,
            final(self).wf(),
            final(self)@.ppu_clock() == old(self)@.ppu_clock(),
            final(self)@ == old(self)@.after_rts(),
    {
        proof {
            reveal(CpuState::after_rts);
        }
        let value = self.pop_stack_2bytes().wrapping_add(1);
        self.pc.store(value);
    }

    fn store_instruction(&mut self, op: &Operation)
        requires
            old(self).wf(),
        ensures
            final(self)@.stall_cycles <= old(self)@.stall_cycles + 515,
            final(self).wf(),
            final(self)@.ppu_clock() == old(self)@.ppu_clock(),
            final(self)@ == old(self)@.after_store_instruction(*op),
    {
        proof {
            reveal(CpuState::after_store_instruction);
        }
        let value = match op.instruction_type {
            InstructionTypes::STA => self.a.load(),
            InstructionTypes::STX => self.x.load(),
            _ => self.y.load(),
        };
        self.store_with_addressing_mode(op, value);
    }

    fn adc(&mut self, op: &Operation)
        requires
            old(self).wf(),
        ensures
            final(self)@.stall_cycles <= old(self)@.stall_cycles + 1,
            final(self).wf(),
            final(self)@.ppu_clock() == old(self)@.ppu_clock(),
            final(self)@ == old(self)@.after_adc(*op),
    {
        proof {
            reveal(CpuState::after_adc);
            reveal(CpuState::adc_result);
        }
        let src1 = self.a.load();
        let c: u16 = if self.p.is_c() {
            1
        } else {
            0
        };
        let src2 = self.load_with_addressing_mode(op);
        let result = (src1 as u16).wrapping_add(src2).wrapping_add(c);
        self.a.store(result as u8);
        self.update_n(result);
        self.update_z(result);
        self.update_c(result);
        if !(((src1 ^ src2 as u8) & 0x80) != 0) && ((src2 as u8 ^ result as u8) & 0x80) != 0 {
            self.p.set_v();
        } else {
            self.p.clear_v();
        }
    }

    fn sbc(&mut self, op: &Operation)
        requires
            old(self).wf(),
        ensures
            final(self)@.stall_cycles <= old(self)@.stall_cycles + 1,
            final(self).wf(),
            final(self)@.ppu_clock() == old(self)@.ppu_clock(),
            final(self)@ == old(self)@.after_sbc(*op),
    {
        proof {
            reveal(CpuState::after_sbc);
            reveal(CpuState::sbc_result);
        }
        let src1 = self.a.load();
        let c: u16 = if self.p.is_c() {
            0
        } else {
            1
        };
        let src2 = self.load_with_addressing_mode(op);
        let result = (src1 as u16).wrapping_sub(src2).wrapping_sub(c);
        self.a.store(result as u8);
        self.update_n(result);
        self.update_z(result);
        if src1 as u16 >= src2.wrapping_add(c) {
            self.p.set_c();
        } else {
            self.p.clear_c();
        }
        if ((src1 ^ result as u8) & 0x80) != 0 && ((src1 ^ src2 as u8) & 0x80) != 0 {
            self.p.set_v();
        } else {
            self.p.clear_v();
        }
    }

    fn logic(&mut self, op: &Operation)
        requires
            old(self).wf(),
        ensures
            final(self)@.stall_cycles <= old(self)@.stall_cycles + 1,
            final(self).wf(),
            final(self)@.ppu_clock() == old(self)@.ppu_clock(),
            final(self)@ == old(self)@.after_logic(*op),
    {
        proof {
            reveal(CpuState::after_logic);
            reveal(CpuState::logic_result);
        }
        let src1 = self.a.load();
        let src2 = self.load_with_addressing_mode(op);
        let result = match op.instruction_type {
            InstructionTypes::AND => (src1 as u16) & src2,
            InstructionTypes::EOR => (src1 as u16) ^ src2,
            _ => (src1 as u16) | src2,
        };
        self.a.store(result as u8);
        self.update_n(result);
        self.update_z(result);
    }

    fn modify(&mut self, op: &Operation)
        requires
            old(self).wf(),
        ensures
            final(self)@.stall_cycles <= old(self)@.stall_cycles + 515,
            final(self).wf(),
            final(self)@.ppu_clock() == old(self)@.ppu_clock(),
            final(self)@ == old(self)@.after_modify(*op),
    {
        proof {
            reveal(CpuState::after_modify);
        }
        let result = self.update_memory_with_addressing_mode(op);
        self.update_n(result);
        self.update_z(result);
        match op.instruction_type {
            InstructionTypes::ASL => self.update_c(result),
            _ => {},
        }
    }

    fn bit(&mut self, op: &Operation)
        requires
            old(self).wf(),
        ensures
            final(self)@.stall_cycles <= old(self)@.stall_cycles + 1,
            final(self).wf(),
            final(self)@.ppu_clock() == old(self)@.ppu_clock(),
            final(self)@ == old(self)@.after_bit(*op),
    {
        proof {
            reveal(CpuState::after_bit);
        }
        let src1 = self.a.load();
        let src2 = self.load_with_addressing_mode(op);
        let result = (src1 as u16) & src2;
        self.update_n(src2);
        self.update_z(result);
        if (src2 & 0x40) == 0 {
            self.p.clear_v();
        } else {
            self.p.set_v();
        }
    }

    fn compare(&mut self, op: &Operation)
        requires
            old(self).wf(),
        ensures
            final(self)@.stall_cycles <= old(self)@.stall_cycles + 1,
            final(self).wf(),
            final(self)@.ppu_clock() == old(self)@.ppu_clock(),
            final(self)@ == old(self)@.after_compare(*op),
    {
        proof {
            reveal(CpuState::after_compare);
        }
        let src1 = match op.instruction_type {
            InstructionTypes::CMP => self.a.load(),
            InstructionTypes::CPX => self.x.load(),
            _ => self.y.load(),
        };
        let src2 = self.load_with_addressing_mode(op);
        let result = (src1 as u16).wrapping_sub(src2);
        self.update_n(result);
        self.update_z(result);
        if src1 as u16 >= src2 {
            self.p.set_c();
        } else {
            self.p.clear_c();
        }
    }

    fn count_register(&mut self, op: &Operation)
        requires
            old(self).wf(),
        ensures
            final(self)@.stall_cycles == old(self)@.stall_cycles,
            final(self).wf(),
            final(self)@.ppu_clock() == old(self)@.ppu_clock(),
            final(self)@ == old(self)@.after_count_register(op.instruction_type),
    {
        proof {
            reveal(CpuState::after_count_register);
        }
        let result = match op.instruction_type {
            InstructionTypes::DEX => {
                let src = self.x.load();
                let result = (src as u16).wrapping_sub(1);
                self.x.store(result as u8);
                result
            },
            InstructionTypes::DEY => {
                let src = self.y.load();
                let result = (src as u16).wrapping_sub(1);
                self.y.store(result as u8);
                result
            },
            InstructionTypes::INX => {
                let src = self.x.load();
                let result = (src as u16).wrapping_add(1);
                self.x.store(result as u8);
                result
            },
            _ => {
                let src = self.y.load();
                let result = (src as u16).wrapping_add(1);
                self.y.store(result as u8);
                result
            },
        };
        self.update_n(result);
        self.update_z(result);
    }

    fn load_instruction(&mut self, op: &Operation)
        requires
            old(self).wf(),
        ensures
            final(self)@.stall_cycles <= old(self)@.stall_cycles + 1,
            final(self).wf(),
            final(self)@.ppu_clock() == old(self)@.ppu_clock(),
            final(self)@ == old(self)@.after_load_instruction(*op),
    {
        proof {
            reveal(CpuState::after_load_instruction);
        }
        let result = self.load_with_addressing_mode(op);
        match op.instruction_type {
            InstructionTypes::LDA => self.a.store(result as u8),
            InstructionTypes::LDX => self.x.store(result as u8),
            _ => self.y.store(result as u8),
        }
        self.update_n(result);
        self.update_z(result);
    }

    fn lsr(&mut self, op: &Operation)
        requires
            old(self).wf(),
        ensures
            final(self)@.stall_cycles <= old(self)@.stall_cycles + 515,
            final(self).wf(),
            final(self)@.ppu_clock() == old(self)@.ppu_clock(),
            final(self)@ == old(self)@.after_lsr(*op),
    {
        proof {
            reveal(CpuState::after_lsr);
            reveal(CpuState::after_update_memory);
        }
        let (address, src) = self.load_memory_operand(op);
        let result = (src as u16) >> 1u8;
        self.store_memory_operand(op, address, result as u8);
        if (src & 1) == 0 {
            self.p.clear_c();
        } else {
            self.p.set_c();
        }
        self.p.clear_n();
        self.update_z(result);
    }

    fn rol(&mut self, op: &Operation)
        requires
            old(self).wf(),
        ensures
            final(self)@.stall_cycles <= old(self)@.stall_cycles + 515,
            final(self).wf(),
            final(self)@.ppu_clock() == old(self)@.ppu_clock(),
            final(self)@ == old(self)@.after_rol(*op),
    {
        proof {
            reveal(CpuState::after_rol);
            reveal(CpuState::after_update_memory);
        }
        let c: u16 = if self.p.is_c() {
            1
        } else {
            0
        };
        let (address, src) = self.load_memory_operand(op);
        let result = ((src as u16) << 1u8) | c;
        self.store_memory_operand(op, address, result as u8);
        self.update_n(result);
        self.update_z(result);
        self.update_c(result);
    }

    fn ror(&mut self, op: &Operation)
        requires
            old(self).wf(),
        ensures
            final(self)@.stall_cycles <= old(self)@.stall_cycles + 515,
            final(self).wf(),
            final(self)@.ppu_clock() == old(self)@.ppu_clock(),
            final(self)@ == old(self)@.after_ror(*op),
    {
        proof {
            reveal(CpuState::after_ror);
            reveal(CpuState::after_update_memory);
        }
        let c: u16 = if self.p.is_c() {
            0x80
        } else {
            0
        };
        let (address, src) = self.load_memory_operand(op);
        let result = ((src as u16) >> 1u8) | c;
        self.store_memory_operand(op, address, result as u8);
        if (src & 1) == 0 {
            self.p.clear_c();
        } else {
            self.p.set_c();
        }
        self.update_n(result);
        self.update_z(result);
    }

    fn transfer(&mut self, op: &Operation)
        requires
            old(self).wf(),
        ensures
            final(self)@.stall_cycles == old(self)@.stall_cycles,
            final(self).wf(),
            final(self)@.ppu_clock() == old(self)@.ppu_clock(),
            final(self)@ == old(self)@.after_transfer(op.instruction_type),
    {
        proof {
            reveal(CpuState::after_transfer);
        }
        match op.instruction_type {
            InstructionTypes::TAX => {
                let result = self.a.load() as u16;
                self.x.store(result as u8);
                self.update_n(result);
                self.update_z(result);
            },
            InstructionTypes::TAY => {
                let result = self.a.load() as u16;
                self.y.store(result as u8);
                self.update_n(result);
                self.update_z(result);
            },
            InstructionTypes::TSX => {
                let result = self.sp.load() as u16;
                self.x.store(result as u8);
                self.update_n(result);
                self.update_z(result);
            },
            InstructionTypes::TXA => {
                let result = self.x.load() as u16;
                self.a.store(result as u8);
                self.update_n(result);
                self.update_z(result);
            },
            InstructionTypes::TXS => {
                let result = self.x.load();
                self.sp.store(result);
            },
            _ => {
                let result = self.y.load() as u16;
                self.a.store(result as u8);
                self.update_n(result);
                self.update_z(result);
            },
        }
    }

    /// The registers, the instruction that the program counter points at
    /// and its operand as text. Writing this down reads from the bus like
    /// the processor does.
    pub fn dump(&mut self) -> (text: String)
        requires
            old(self).wf(),
        ensures
            final(self).wf(),
            final(self)@.ppu_clock() == old(self)@.ppu_clock(),
            (final(self)@, text@) == old(self)@.dump_spec(),
    {
        proof {
            reveal(CpuState::dump_spec);
        }
        let opc = self.load(self.pc.load());
        let op = self.decode(opc);
        let mut text = String::from_str("p:");
        text.append(self.p.dump().as_str());
        text.append(" ");
        text.append("pc:");
        append_hex_u16(&mut text, self.pc.load());
        text.append("(");
        append_hex_u8(&mut text, opc);
        text.append(")");
        text.append(" ");
        text.append("sp:");
        append_hex_u8(&mut text, self.sp.load());
        text.append(" ");
        text.append("a:");
        append_hex_u8(&mut text, self.a.load());
        text.append(" ");
        text.append("x:");
        append_hex_u8(&mut text, self.x.load());
        text.append(" ");
        text.append("y:");
        append_hex_u8(&mut text, self.y.load());
        text.append(" ");
        text.append(instruction_name(op.instruction_type));
        text.append(" ");
        let operand = self.dump_addressing_mode(op.addressing_mode, self.pc.load().wrapping_add(1));
        text.append(operand.as_str());
        text
    }

    fn dump_addressing_mode(&mut self, mode: AddressingModes, pc: u16) -> (text: String)
        requires
            old(self).wf(),
        ensures
            final(self).wf(),
            final(self)@.ppu_clock() == old(self)@.ppu_clock(),
            final(self)@.keeps_axyp(old(self)@),
            final(self)@.pc == old(self)@.pc,
            final(self)@.sp == old(self)@.sp,
            (final(self)@, text@) == old(self)@.operand_dump(mode, pc),
    {
        proof {
            reveal(CpuState::operand_dump);
        }
        match mode {
            AddressingModes::Immediate => {
                let value = self.load(pc);
                let mut text = String::from_str("#");
                append_hex_u8(&mut text, value);
                text.append(" ");
                text.append("immediate");
                text
            },
            AddressingModes::Relative => {
                let value = self.load(pc);
                let mut text = hex_text_u8(value);
                text.append(" ");
                text.append("relative");
                text
            },
            AddressingModes::Absolute => {
                let address = self.load_2bytes(pc);
                let value = self.load(address);
                let mut text = hex_text_u16(address);
                text.append(" ");
                append_bracketed(&mut text, value);
                text.append("absolute");
                text
            },
            AddressingModes::IndexedAbsoluteX => {
                let address = self.load_2bytes(pc);
                let value = self.load((self.x.load() as u16).wrapping_add(address));
                let mut text = hex_text_u16(address);
                text.append(",X ");
                append_bracketed(&mut text, value);
                text.append("indexed_absolute_x");
                text
            },
            AddressingModes::IndexedAbsoluteY => {
                let address = self.load_2bytes(pc);
                let value = self.load((self.y.load() as u16).wrapping_add(address));
                let mut text = hex_text_u16(address);
                text.append(",Y ");
                append_bracketed(&mut text, value);
                text.append("indexed_absolute_y");
                text
            },
            AddressingModes::ZeroPage => {
                let address = self.load(pc);
                let value = self.load(address as u16);
                let mut text = hex_text_u8(address);
                text.append(" ");
                append_bracketed(&mut text, value);
                text.append("zero_page");
                text
            },
            AddressingModes::IndexedZeroPageX => {
                let address = self.load(pc);
                let value = self.load(self.x.load().wrapping_add(address) as u16);
                let mut text = hex_text_u8(address);
                text.append(",X ");
                append_bracketed(&mut text, value);
                text.append("indexed_zero_page_x");
                text
            },
            AddressingModes::IndexedZeroPageY => {
                let address = self.load(pc);
                let value = self.load(self.y.load().wrapping_add(address) as u16);
                let mut text = hex_text_u8(address);
                text.append(",Y ");
                append_bracketed(&mut text, value);
                text.append("indexed_zero_page_y");
                text
            },
            AddressingModes::Indirect => {
                let address = self.load_2bytes(pc);
                let address2 = self.load_2bytes(address);
                let value = self.load(address2);
                let mut text = hex_text_u16(address);
                text.append(" ");
                append_bracketed_at(&mut text, address2, value);
                text.append("indirect");
                text
            },
            AddressingModes::IndexedIndirectX => {
                let address = self.load(pc);
                let address2 = (self.x.load() as u16).wrapping_add(address as u16);
                let value = self.load(address2);
                let mut text = hex_text_u8(address);
                text.append(",X ");
                append_bracketed_at(&mut text, address2, value);
                text.append("indexed_indirect_x");
                text
            },
            AddressingModes::IndexedIndirectY => {
                let address = self.load(pc);
                let address2 = self.load_2bytes_from_zeropage(address as u16).wrapping_add(
                    self.x.load() as u16,
                );
                let value = self.load(address2);
                let mut text = hex_text_u8(address);
                text.append(",Y ");
                append_bracketed_at(&mut text, address2, value);
                text.append("indexed_indirect_y");
                text
            },
            AddressingModes::Accumulator => {
                let mut text = String::from_str("A");
                append_hex_u8(&mut text, self.a.load());
                text.append(" ");
                text.append("accumulator");
                text
            },
            AddressingModes::Implied => String::from_str(""),
        }
    }

    /// Reads a byte from the bus.
    pub fn load(&mut self, address: u16) -> (value: u8)
        requires
            old(self).wf(),
        ensures
            final(self)@.apu.dmc == old(self)@.apu.dmc,
            final(self)@.apu.cycle == old(self)@.apu.cycle,
            final(self)@.keeps_axyp(old(self)@),
            final(self)@.keeps_switches(old(self)@),
            final(self)@.pc == old(self)@.pc,
            final(self)@.sp == old(self)@.sp,
            final(self)@.stall_cycles == old(self)@.stall_cycles,
            final(self)@.ram == old(self)@.ram,
            final(self)@.rom == old(self)@.rom,
            final(self).wf(),
            final(self)@.ppu_clock() == old(self)@.ppu_clock(),
            value == old(self)@.read_value(address),
            final(self)@ == old(self)@.after_load(address),
    {
        proof {
            reveal(CpuState::read_value);
            reveal(CpuState::after_load);
        }
        proof {
            lemma_bus_bits(address, 0);
        }
        if address < 0x2000 {
            return self.ram.load((address & 0x07FF) as u32);
        }
        if address < 0x4000 {
            return self.ppu.load_register(address & 0x2007, &self.rom);
        }
        if address == 0x4014 {
            return self.ppu.load_register(address, &self.rom);
        }
        if address == 0x4016 {
            return self.joypad1.load_register();
        }
        if address == 0x4017 {
            return self.joypad2.load_register();
        }
        if address < 0x4020 {
            return self.apu.load_register(address);
        }
        if address < 0x8000 {
            return self.ram.load(address as u32);
        }
        self.rom.load(address as u32)
    }

    fn load_2bytes(&mut self, address: u16) -> (value: u16)
        requires
            old(self).wf(),
        ensures
            final(self)@.keeps_axyp(old(self)@),
            final(self)@.keeps_switches(old(self)@),
            final(self)@.pc == old(self)@.pc,
            final(self)@.sp == old(self)@.sp,
            final(self)@.stall_cycles == old(self)@.stall_cycles,
            final(self).wf(),
            final(self)@.ppu_clock() == old(self)@.ppu_clock(),
            value == old(self)@.read_2bytes(address),
            final(self)@ == old(self)@.after_load_2bytes(address),
    {
        proof {
            reveal(CpuState::read_2bytes);
            reveal(CpuState::after_load_2bytes);
        }
        let byte_low = self.load(address) as u16;
        let byte_high = self.load(address.wrapping_add(1)) as u16;
        (byte_high << 8u8) | byte_low
    }

    fn load_2bytes_from_zeropage(&self, address: u16) -> (value: u16)
        requires
            self.wf(),
        ensures
            value == self@.read_2bytes_from_zeropage(address),
    {
        proof {
            lemma_bus_bits(address, 0);
            lemma_bus_bits(address.wrapping_add(1), 0);
        }
        self.ram.load((address & 0xff) as u32) as u16 | ((self.ram.load(
            (address.wrapping_add(1) & 0xff) as u32,
        ) as u16) << 8u8)
    }

    fn load_2bytes_in_page(&mut self, address: u16) -> (value: u16)
        requires
            old(self).wf(),
        ensures
            final(self)@.keeps_axyp(old(self)@),
            final(self)@.keeps_switches(old(self)@),
            final(self)@.pc == old(self)@.pc,
            final(self)@.sp == old(self)@.sp,
            final(self)@.stall_cycles == old(self)@.stall_cycles,
            final(self).wf(),
            final(self)@.ppu_clock() == old(self)@.ppu_clock(),
            value == old(self)@.read_2bytes_in_page(address),
            final(self)@ == old(self)@.after_load_2bytes_in_page(address),
    {
        proof {
            reveal(CpuState::read_2bytes_in_page);
            reveal(CpuState::after_load_2bytes_in_page);
        }
        let addr1 = address;
        let addr2 = (address & 0xff00) | ((address.wrapping_add(1)) & 0xff);
        let byte_low = self.load(addr1) as u16;
        let byte_high = self.load(addr2) as u16;
        (byte_high << 8u8) | byte_low
    }

    /// Writes a byte to the bus.
    pub fn store(&mut self, address: u16, value: u8)
        requires
            old(self).wf(),
        ensures
            final(self)@.stall_cycles <= old(self)@.stall_cycles + 514,
            address != 0x4014 ==> final(self)@.stall_cycles == old(self)@.stall_cycles,
            final(self)@.keeps_axyp(old(self)@),
            final(self)@.keeps_switches(old(self)@),
            final(self)@.pc == old(self)@.pc,
            final(self)@.sp == old(self)@.sp,
            final(self).wf(),
            final(self)@.ppu_clock() == old(self)@.ppu_clock(),
            final(self)@ == old(self)@.after_store(address, value),
    {
        proof {
            reveal(CpuState::after_store);
        }
        proof {
            lemma_bus_bits(address, value);
        }
        if address < 0x2000 {
            self.ram.store((address & 0x07FF) as u32, value);
        } else if address < 0x4000 {
            self.ppu.store_register(address & 0x2007, value, &mut self.rom);
        } else if address == 0x4014 {
            self.ppu.store_register(address, value, &mut self.rom);
            let offset = (value as u16) << 8u8;
            let ghost start = self@;
            let mut i: u16 = 0;
            while i < 256
                invariant
                    i <= 256,
                    offset <= 0xFF00,
                    self.wf(),
                    self@.ppu_clock() == start.ppu_clock(),
                    self@.keeps_axyp(start),
                    self@.keeps_switches(start),
                    self@.pc == start.pc,
                    self@.sp == start.sp,
                    self@.stall_cycles == start.stall_cycles,
                    self@.after_dma(offset, i as nat) == start.after_dma(offset, 0),
                decreases 256 - i,
            {
                let data = self.load(offset + i);
                self.ppu.store_register(0x2004, data, &mut self.rom);
                i += 1;
            }
            self.stall_cycles = self.stall_cycles.saturating_add(DMA_STALL_CYCLES);
        } else if address == 0x4016 {
            self.joypad1.store_register(value);
            self.joypad2.store_register(value);
        } else if address < 0x4020 {
            self.apu.store_register(address, value);
        } else if address < 0x8000 {
            self.ram.store(address as u32, value);
        } else {
            self.rom.store(address as u32, value);
        }
    }

    /// Serves an interrupt, unless it is a request that the flags mask.
    pub fn interrupt(&mut self, interrupt_type: Interrupts)
        requires
            old(self).wf(),
        ensures
            final(self)@.stall_cycles == old(self)@.stall_cycles,
            final(self)@.keeps_switches(old(self)@),
            final(self)@.a == old(self)@.a,
            final(self)@.x == old(self)@.x,
            final(self)@.y == old(self)@.y,
            final(self).wf(),
            final(self)@.ppu_clock() == old(self)@.ppu_clock(),
            final(self)@ == old(self)@.after_interrupt(interrupt_type),
    {
        proof {
            reveal(CpuState::after_interrupt);
        }
        match interrupt_type {
            Interrupts::IRQ => {
                if self.p.is_i() {
                    return ;
                }
            },
            _ => {},
        }
        match interrupt_type {
            Interrupts::RESET => {},
            _ => {
                match interrupt_type {
                    Interrupts::BRK => {},
                    _ => self.p.clear_b(),
                };
                self.p.set_a();
                let value = self.pc.load();
                self.push_stack_2bytes(value);
                let value2 = self.p.load();
                self.push_stack(value2);
                self.p.set_i();
            },
        };
        self.jump_to_interrupt_handler(interrupt_type);
    }

    fn load_with_addressing_mode(&mut self, op: &Operation) -> (value: u16)
        requires
            old(self).wf(),
        ensures
            final(self)@.stall_cycles <= old(self)@.stall_cycles + 1,
            final(self)@.keeps_axyp(old(self)@),
            final(self)@.keeps_switches(old(self)@),
            final(self)@.sp == old(self)@.sp,
            final(self).wf(),
            final(self)@.ppu_clock() == old(self)@.ppu_clock(),
            value == old(self)@.operand(*op),
            final(self)@ == old(self)@.after_operand(*op),
    {
        proof {
            reveal(CpuState::operand);
            reveal(CpuState::after_operand);
        }
        match op.addressing_mode {
            AddressingModes::Accumulator => self.a.load() as u16,
            _ => {
                let address = self.get_address_with_addressing_mode(op);
                let value = self.load(address) as u16;
                match op.addressing_mode {
                    AddressingModes::Relative => {
                        if (value & 0x80) != 0 {
                            value | 0xff00
                        } else {
                            value
                        }
                    },
                    _ => value,
                }
            },
        }
    }

    fn store_with_addressing_mode(&mut self, op: &Operation, value: u8)
        requires
            old(self).wf(),
        ensures
            final(self)@.stall_cycles <= old(self)@.stall_cycles + 515,
            final(self).wf(),
            final(self)@.ppu_clock() == old(self)@.ppu_clock(),
            final(self)@ == old(self)@.after_store_operand(*op, value),
    {
        proof {
            reveal(CpuState::after_store_operand);
        }
        match op.addressing_mode {
            AddressingModes::Accumulator => {
                self.a.store(value);
            },
            _ => {
                let address = self.get_address_with_addressing_mode(op);
                self.store(address, value);
            },
        };
    }

    /// Reads the byte that a read-modify-write instruction works on.
    fn load_memory_operand(&mut self, op: &Operation) -> (target: (u16, u8))
        requires
            old(self).wf(),
        ensures
            final(self)@.stall_cycles <= old(self)@.stall_cycles + 1,
            final(self)@.keeps_axyp(old(self)@),
            final(self)@.keeps_switches(old(self)@),
            final(self)@.sp == old(self)@.sp,
            final(self).wf(),
            final(self)@.ppu_clock() == old(self)@.ppu_clock(),
            target.1 == old(self)@.memory_operand(*op),
            op.addressing_mode != AddressingModes::Accumulator ==> target.0 == old(self)@.operand_address(*op) && final(self)@ == old(self)@.after_operand_address(
                *op,
            ).after_load(target.0),
            op.addressing_mode == AddressingModes::Accumulator ==> final(self)@ == old(self)@,
    {
        proof {
            reveal(CpuState::memory_operand);
        }
        match op.addressing_mode {
            AddressingModes::Accumulator => (0, self.a.load()),
            _ => {
                let address = self.get_address_with_addressing_mode(op);
                let src = self.load(address);
                (address, src)
            },
        }
    }

    /// Writes the byte that a read-modify-write instruction has made.
    fn store_memory_operand(&mut self, op: &Operation, address: u16, value: u8)
        requires
            old(self).wf(),
        ensures
            final(self)@.stall_cycles <= old(self)@.stall_cycles + 514,
            final(self)@.keeps_switches(old(self)@),
            final(self)@.sp == old(self)@.sp,
            final(self)@.pc == old(self)@.pc,
            final(self)@.x == old(self)@.x,
            final(self)@.y == old(self)@.y,
            final(self)@.p == old(self)@.p,
            final(self).wf(),
            final(self)@.ppu_clock() == old(self)@.ppu_clock(),
            op.addressing_mode != AddressingModes::Accumulator ==> final(self)@ == old(self)@.after_store(address, value),
            op.addressing_mode == AddressingModes::Accumulator ==> final(self)@ == (CpuState {
                a: value,
                ..old(self)@
            }),
    {
        match op.addressing_mode {
            AddressingModes::Accumulator => {
                self.a.store(value);
            },
            _ => {
                self.store(address, value);
            },
        }
    }

    fn update_memory_with_addressing_mode(&mut self, op: &Operation) -> (result: u16)
        requires
            old(self).wf(),
        ensures
            final(self)@.stall_cycles <= old(self)@.stall_cycles + 515,
            final(self).wf(),
            final(self)@.ppu_clock() == old(self)@.ppu_clock(),
            result == modified(op.instruction_type, old(self)@.memory_operand(*op)),
            final(self)@ == old(self)@.after_update_memory(*op, result as u8),
    {
        proof {
            reveal(CpuState::after_update_memory);
        }
        let (address, src) = self.load_memory_operand(op);
        let result = match op.instruction_type {
            InstructionTypes::ASL => (src as u16) << 1u8,
            InstructionTypes::DEC => (src as u16).wrapping_sub(1),
            _ => (src as u16).wrapping_add(1),
        };
        self.store_memory_operand(op, address, result as u8);
        result
    }

    /// Reads the operand of an instruction and gives the address that it
    /// names, passing the operand. A pointer that ends in 0xFF takes its
    /// high byte from the start of its own page.
    pub fn get_address_with_addressing_mode(&mut self, op: &Operation) -> (address: u16)
        requires
            old(self).wf(),
        ensures
            op.addressing_mode == AddressingModes::Indirect ==> ({
                let pointer = old(self)@.read_2bytes(old(self)@.pc);
                let read = CpuState {
                    pc: old(self)@.pc.wrapping_add(2),
                    ..old(self)@.after_load_2bytes(old(self)@.pc)
                };
                &&& final(self)@.pc == old(self)@.pc.wrapping_add(2)
                &&& pointer & 0xff == 0xff ==> address == ((read.after_load(pointer).read_value(
                    pointer & 0xff00,
                ) as u16) << 8u8) | read.read_value(pointer) as u16
            }),
            final(self)@.stall_cycles <= old(self)@.stall_cycles + 1,
            final(self)@.keeps_axyp(old(self)@),
            final(self)@.keeps_switches(old(self)@),
            final(self)@.sp == old(self)@.sp,
            final(self).wf(),
            final(self)@.ppu_clock() == old(self)@.ppu_clock(),
            address == old(self)@.operand_address(*op),
            final(self)@ == old(self)@.after_operand_address(*op),
    {
        proof {
            reveal(CpuState::operand_address);
            reveal(CpuState::operand_crosses_page);
            reveal(CpuState::after_operand_address);
            if op.addressing_mode == AddressingModes::Indirect {
                crate::cpu_laws::lemma_indirect_jump_address(self@, *op);
            }
        }
        match op.addressing_mode {
            AddressingModes::Immediate | AddressingModes::Relative => {
                let address = self.pc.load();
                self.pc.increment();
                address
            },
            AddressingModes::Absolute
            | AddressingModes::IndexedAbsoluteX
            | AddressingModes::IndexedAbsoluteY => {
                let address = self.load_2bytes(self.pc.load());
                self.pc.increment_by_2();
                let index: u16 = match op.addressing_mode {
                    AddressingModes::IndexedAbsoluteX => self.x.load() as u16,
                    AddressingModes::IndexedAbsoluteY => self.y.load() as u16,
                    _ => 0,
                };
                let effective_address = address.wrapping_add(index);
                match op.instruction_type {
                    InstructionTypes::ADC
                    | InstructionTypes::AND
                    | InstructionTypes::CMP
                    | InstructionTypes::EOR
                    | InstructionTypes::LDA
                    | InstructionTypes::LDY
                    | InstructionTypes::LDX
                    | InstructionTypes::ORA
                    | InstructionTypes::SBC => {
                        if (address & 0xff00) != (effective_address & 0xff00) {
                            self.stall_cycles = self.stall_cycles.saturating_add(1);
                        }
                    },
                    _ => {},
                };
                effective_address
            },
            AddressingModes::ZeroPage
            | AddressingModes::IndexedZeroPageX
            | AddressingModes::IndexedZeroPageY => {
                let address = self.pc.load();
                let address2 = self.load(address) as u16;
                self.pc.increment();
                let index: u16 = match op.addressing_mode {
                    AddressingModes::IndexedZeroPageX => self.x.load() as u16,
                    AddressingModes::IndexedZeroPageY => self.y.load() as u16,
                    _ => 0,
                };
                address2.wrapping_add(index) & 0xFF
            },
            AddressingModes::Indirect => {
                let address = self.pc.load();
                let tmp = self.load_2bytes(address);
                self.pc.increment_by_2();
                self.load_2bytes_in_page(tmp)
            },
            AddressingModes::IndexedIndirectX => {
                let address = self.pc.load();
                let tmp = self.load(address);
                self.pc.increment();
                self.load_2bytes_from_zeropage(((tmp.wrapping_add(self.x.load())) & 0xFF) as u16)
            },
            AddressingModes::IndexedIndirectY => {
                let address = self.pc.load();
                let tmp = self.load(address);
                self.pc.increment();
                let address2 = self.load_2bytes_from_zeropage(tmp as u16);
                let effective_address = address2.wrapping_add(self.y.load() as u16);
                match op.instruction_type {
                    InstructionTypes::ADC
                    | InstructionTypes::AND
                    | InstructionTypes::CMP
                    | InstructionTypes::EOR
                    | InstructionTypes::LDA
                    | InstructionTypes::LDY
                    | InstructionTypes::LDX
                    | InstructionTypes::ORA
                    | InstructionTypes::SBC => {
                        if (address2 & 0xff00) != (effective_address & 0xff00) {
                            self.stall_cycles = self.stall_cycles.saturating_add(1);
                        }
                    },
                    _ => {},
                };
                effective_address
            },
            _ => 0,
        }
    }

    fn update_n(&mut self, value: u16)
        requires
            old(self).wf(),
        ensures
            final(self)@.stall_cycles == old(self)@.stall_cycles,
            final(self).wf(),
            final(self)@.ppu_clock() == old(self)@.ppu_clock(),
            final(self)@ == (CpuState { p: with_n(old(self)@.p, value), ..old(self)@ }),
    {
        if (value & 0x80) == 0 {
            self.p.clear_n();
        } else {
            self.p.set_n();
        }
    }

    fn update_z(&mut self, value: u16)
        requires
            old(self).wf(),
        ensures
            final(self)@.stall_cycles == old(self)@.stall_cycles,
            final(self).wf(),
            final(self)@.ppu_clock() == old(self)@.ppu_clock(),
            final(self)@ == (CpuState { p: with_z(old(self)@.p, value), ..old(self)@ }),
    {
        if (value & 0xff) == 0 {
            self.p.set_z();
        } else {
            self.p.clear_z();
        }
    }

    fn update_c(&mut self, value: u16)
        requires
            old(self).wf(),
        ensures
            final(self)@.stall_cycles == old(self)@.stall_cycles,
            final(self).wf(),
            final(self)@.ppu_clock() == old(self)@.ppu_clock(),
            final(self)@ == (CpuState { p: with_c(old(self)@.p, value), ..old(self)@ }),
    {
        if (value & 0x100) == 0 {
            self.p.clear_c();
        } else {
            self.p.set_c();
        }
    }

    fn get_stack_address(&self) -> (address: u16)
        ensures
            address == self@.stack_address(),
            0x100 <= address <= 0x1ff,
    {
        self.sp.load() as u16 + 0x100
    }

    fn push_stack(&mut self, value: u8)
        requires
            old(self).wf(),
        ensures
            final(self)@.stall_cycles == old(self)@.stall_cycles,
            final(self)@.keeps_axyp(old(self)@),
            final(self)@.keeps_switches(old(self)@),
            final(self)@.pc == old(self)@.pc,
            final(self).wf(),
            final(self)@.ppu_clock() == old(self)@.ppu_clock(),
            final(self)@ == old(self)@.after_push_stack(value),
    {
        proof {
            reveal(CpuState::after_push_stack);
        }
        let address = self.get_stack_address();
        self.store(address, value);
        self.sp.decrement();
    }

    fn push_stack_2bytes(&mut self, value: u16)
        requires
            old(self).wf(),
        ensures
            final(self)@.stall_cycles == old(self)@.stall_cycles,
            final(self)@.keeps_axyp(old(self)@),
            final(self)@.keeps_switches(old(self)@),
            final(self)@.pc == old(self)@.pc,
            final(self).wf(),
            final(self)@.ppu_clock() == old(self)@.ppu_clock(),
            final(self)@ == old(self)@.after_push_stack_2bytes(value),
    {
        proof {
            reveal(CpuState::after_push_stack_2bytes);
            reveal(CpuState::after_push_stack);
        }
        let address = self.get_stack_address();
        self.store(address, ((value >> 8u8) & 0xff) as u8);
        self.sp.decrement();
        let address2 = self.get_stack_address();
        self.store(address2, (value & 0xff) as u8);
        self.sp.decrement();
    }

    fn pop_stack(&mut self) -> (value: u8)
        requires
            old(self).wf(),
        ensures
            final(self)@.keeps_axyp(old(self)@),
            final(self)@.keeps_switches(old(self)@),
            final(self)@.pc == old(self)@.pc,
            final(self)@.stall_cycles == old(self)@.stall_cycles,
            final(self).wf(),
            final(self)@.ppu_clock() == old(self)@.ppu_clock(),
            value == old(self)@.popped(),
            final(self)@ == old(self)@.after_pop_stack(),
    {
        proof {
            reveal(CpuState::popped);
            reveal(CpuState::after_pop_stack);
        }
        self.sp.increment();
        let address = self.get_stack_address();
        self.load(address)
    }

    fn pop_stack_2bytes(&mut self) -> (value: u16)
        requires
            old(self).wf(),
        ensures
            final(self)@.keeps_axyp(old(self)@),
            final(self)@.keeps_switches(old(self)@),
            final(self)@.pc == old(self)@.pc,
            final(self)@.stall_cycles == old(self)@.stall_cycles,
            final(self).wf(),
            final(self)@.ppu_clock() == old(self)@.ppu_clock(),
            value == old(self)@.popped_2bytes(),
            final(self)@ == old(self)@.after_pop_stack_2bytes(),
    {
        proof {
            reveal(CpuState::popped_2bytes);
            reveal(CpuState::after_pop_stack_2bytes);
            reveal(CpuState::popped);
            reveal(CpuState::after_pop_stack);
        }
        self.sp.increment();
        let address = self.get_stack_address();
        let byte_low = self.load(address) as u16;
        self.sp.increment();
        let address2 = self.get_stack_address();
        let byte_high = self.load(address2) as u16;
        (byte_high << 8u8) | byte_low
    }
}

} // verus!
