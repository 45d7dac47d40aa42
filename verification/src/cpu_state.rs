//! What the console holds, seen from its processor, and how each
//! operation of the processor changes it.
//!
//! The processor is a 6502 without decimal arithmetic. It reaches its own
//! memory, the registers of the picture and audio units, the two
//! controllers and the cartridge through one bus of 16-bit addresses.

use vstd::prelude::*;
use crate::apu::ApuState;
use crate::button::{Button, Event};
use crate::joypad;
use crate::joypad::JoypadState;
use crate::operation::{
    instruction_name_text,
    operation_spec,
    AddressingModes,
    InstructionTypes,
    Operation,
};
use crate::ppu_state::PpuState;
use crate::register::{hex_u16, hex_u8};
use crate::rom::RomState;

verus! {

/// What makes the processor leave its program.
#[derive(Clone, Copy, Debug, PartialEq, Eq, Structural)]
pub enum Interrupts {
    NMI,
    RESET,
    IRQ,
    /// The break instruction, served like an interrupt.
    BRK,
}

/// Where the address of the handler lies.
pub open spec fn interrupt_handler_address_spec(interrupt_type: Interrupts) -> u16 {
    match interrupt_type {
        Interrupts::NMI => 0xFFFA,
        Interrupts::RESET => 0xFFFC,
        Interrupts::IRQ => 0xFFFE,
        Interrupts::BRK => 0xFFFE,
    }
}

/// The cycles that a transfer of sprite memory stalls the processor for.
pub const DMA_STALL_CYCLES: u16 = 514;

/// The cycles that a fetch for the delta channel stalls the processor for.
pub const DMC_STALL_CYCLES: u16 = 4;

/// The stall that a step leaves behind stays at or below this bound once
/// it is there.
pub const STALL_LIMIT: u16 = 1000;

/// The button of a controller that a button of the console stands for.
pub open spec fn to_joypad_button_spec(button: Button) -> joypad::Button {
    match button {
        Button::Joypad1A | Button::Joypad2A => joypad::Button::A,
        Button::Joypad1B | Button::Joypad2B => joypad::Button::B,
        Button::Joypad1Up | Button::Joypad2Up => joypad::Button::Up,
        Button::Joypad1Down | Button::Joypad2Down => joypad::Button::Down,
        Button::Joypad1Left | Button::Joypad2Left => joypad::Button::Left,
        Button::Joypad1Right | Button::Joypad2Right => joypad::Button::Right,
        Button::Start => joypad::Button::Start,
        Button::Select => joypad::Button::Select,
        _ => joypad::Button::A,
    }
}

/// Whether a button belongs to the second controller.
pub open spec fn on_second_joypad(button: Button) -> bool {
    match button {
        Button::Joypad2A | Button::Joypad2B | Button::Joypad2Up | Button::Joypad2Down
        | Button::Joypad2Left | Button::Joypad2Right => true,
        _ => false,
    }
}

// ---- the status register P: N V - B D I Z C from bit 7 down; bit 5 has
// no name and is set whenever the flags are pushed

/// `p` with the flag `mask` set or cleared.
pub open spec fn with_flag(p: u8, mask: u8, set: bool) -> u8 {
    if set {
        p | mask
    } else {
        p & !mask
    }
}

/// `p` with N taken from bit 7 of a result.
pub open spec fn with_n(p: u8, value: u16) -> u8 {
    with_flag(p, 0x80, (value & 0x80) != 0)
}

/// `p` with Z set where the low byte of a result is zero.
pub open spec fn with_z(p: u8, value: u16) -> u8 {
    with_flag(p, 0x02, (value & 0xff) == 0)
}

/// `p` with C taken from bit 8 of a result.
pub open spec fn with_c(p: u8, value: u16) -> u8 {
    with_flag(p, 0x01, (value & 0x100) != 0)
}

/// The carry as a number.
pub open spec fn carry_of(p: u8) -> u16 {
    if p & 0x01 != 0 {
        1
    } else {
        0
    }
}

/// A byte read as a signed distance, on 16 bits.
pub open spec fn sign_extended(value: u16) -> u16 {
    if (value & 0x80) != 0 {
        value | 0xff00
    } else {
        value
    }
}

/// The address after `address` in the same page: the pointer of an
/// indirect jump does not leave its page.
pub open spec fn next_in_page(address: u16) -> u16 {
    (address & 0xff00) | (address.wrapping_add(1) & 0xff)
}

/// Whether two addresses lie in different pages.
pub open spec fn page_crossed(from: u16, to: u16) -> bool {
    (from & 0xff00) != (to & 0xff00)
}

/// Whether an instruction pays a cycle for an indexed read that crosses a page.
pub open spec fn pays_page_cross(instruction_type: InstructionTypes) -> bool {
    match instruction_type {
        InstructionTypes::ADC | InstructionTypes::AND | InstructionTypes::CMP
        | InstructionTypes::EOR | InstructionTypes::LDA | InstructionTypes::LDY
        | InstructionTypes::LDX | InstructionTypes::ORA | InstructionTypes::SBC => true,
        _ => false,
    }
}

/// What a read-modify-write instruction makes of a byte, on 16 bits.
pub open spec fn modified(instruction_type: InstructionTypes, src: u8) -> u16 {
    match instruction_type {
        InstructionTypes::ASL => (src as u16) << 1u8,
        InstructionTypes::DEC => (src as u16).wrapping_sub(1),
        _ => (src as u16).wrapping_add(1),
    }
}

/// The overflow flag of an addition: both operands have the same sign and
/// the result has the other.
pub open spec fn adc_overflow(src1: u8, src2: u16, result: u16) -> bool {
    !(((src1 ^ src2 as u8) & 0x80) != 0) && ((src2 as u8 ^ result as u8) & 0x80) != 0
}

/// The overflow flag of a subtraction: the operands differ in sign and the
/// result has not the sign of the first.
pub open spec fn sbc_overflow(src1: u8, src2: u16, result: u16) -> bool {
    ((src1 ^ result as u8) & 0x80) != 0 && ((src1 ^ src2 as u8) & 0x80) != 0
}

/// The letter of a flag that is set, a dash for one that is clear.
pub open spec fn flag_letter(p: u8, mask: u8, letter: char) -> char {
    if p & mask != 0 {
        letter
    } else {
        '-'
    }
}

/// The flags as text: the byte, then in brackets a letter for each flag
/// from bit 7 down.
pub open spec fn status_text(p: u8) -> Seq<char> {
    (hex_u8(p) + "("@).push(flag_letter(p, 0x80, 'N')).push(flag_letter(p, 0x40, 'V')).push(
        flag_letter(p, 0x20, 'A'),
    ).push(flag_letter(p, 0x10, 'B')).push(flag_letter(p, 0x08, 'D')).push(
        flag_letter(p, 0x04, 'I'),
    ).push(flag_letter(p, 0x02, 'Z')).push(flag_letter(p, 0x01, 'C')) + ")"@
}

/// A byte in brackets, followed by a blank.
pub open spec fn bracketed(value: u8) -> Seq<char> {
    "("@ + hex_u8(value) + ") "@
}

/// An address and the byte found there, in brackets, followed by a blank.
pub open spec fn bracketed_at(address: u16, value: u8) -> Seq<char> {
    "("@ + hex_u16(address) + "("@ + hex_u8(value) + ")) "@
}

/// What the console holds.
pub struct CpuState {
    pub power_on: bool,
    pub pc: u16,
    pub sp: u8,
    pub a: u8,
    pub x: u8,
    pub y: u8,
    pub p: u8,
    /// 64 KiB, of which the first 2 KiB are the processor's own memory and
    /// 0x4020 to 0x7FFF the memory of the cartridge.
    pub ram: Seq<u8>,
    /// Cycles that the instruction under way costs beyond its own.
    pub stall_cycles: u16,
    /// Operation codes run that are no instruction, up to 2^32 - 1.
    pub invalid_operations: u32,
    /// The button events not yet pulled.
    pub input: Seq<(Button, Event)>,
    pub ppu: PpuState,
    pub apu: ApuState,
    pub joypad1: JoypadState,
    pub joypad2: JoypadState,
    pub rom: RomState,
}

impl CpuState {
    pub open spec fn wf(self) -> bool {
        &&& self.ram.len() == 0x10000
        &&& self.ppu.wf()
        &&& self.apu.wf()
        &&& self.joypad1.wf()
        &&& self.joypad2.wf()
        &&& self.rom.wf()
    }

    /// Frame, scanline and dot of the picture unit.
    pub open spec fn ppu_clock(self) -> (u32, u16, u16) {
        (self.ppu.frame, self.ppu.scanline, self.ppu.cycle)
    }

    /// Whether the processor's registers are those of `before`, apart
    /// from the program counter and the stack pointer.
    pub open spec fn keeps_axyp(self, before: CpuState) -> bool {
        &&& self.a == before.a
        &&& self.x == before.x
        &&& self.y == before.y
        &&& self.p == before.p
    }

    /// Whether the power switch, the count of invalid operation codes and
    /// the waiting button events are those of `before`.
    pub open spec fn keeps_switches(self, before: CpuState) -> bool {
        &&& self.power_on == before.power_on
        &&& self.invalid_operations == before.invalid_operations
        &&& self.input == before.input
    }

    /// Whether the stall left behind is small: it is after power-on, and
    /// steps keep it so.
    pub open spec fn rested(self) -> bool {
        self.stall_cycles <= STALL_LIMIT
    }

    // ---- the bus

    /// The byte that a read at an address returns.
    #[verifier::opaque]
    pub open spec fn read_value(self, address: u16) -> u8 {
        if address < 0x2000 {
            self.ram[(address & 0x07FF) as int]
        } else if address < 0x4000 {
            self.ppu.register_value(address & 0x2007, self.rom)
        } else if address == 0x4014 {
            self.ppu.register_value(address, self.rom)
        } else if address == 0x4016 {
            self.joypad1.read_value()
        } else if address == 0x4017 {
            self.joypad2.read_value()
        } else if address < 0x4020 {
            self.apu.register_value(address)
        } else if address < 0x8000 {
            self.ram[address as int]
        } else {
            self.rom.load(address as u32)
        }
    }

    /// The console after a read at an address.
    #[verifier::opaque]
    pub open spec fn after_load(self, address: u16) -> CpuState {
        if address < 0x2000 {
            self
        } else if address < 0x4000 {
            CpuState { ppu: self.ppu.after_load_register(address & 0x2007, self.rom), ..self }
        } else if address == 0x4014 {
            CpuState { ppu: self.ppu.after_load_register(address, self.rom), ..self }
        } else if address == 0x4016 {
            CpuState { joypad1: self.joypad1.after_read(), ..self }
        } else if address == 0x4017 {
            CpuState { joypad2: self.joypad2.after_read(), ..self }
        } else if address < 0x4020 {
            CpuState { apu: self.apu.after_load_register(address), ..self }
        } else {
            self
        }
    }

    /// The console after sprite bytes `i` to 255 of the page at `offset`
    /// have gone to the picture unit through its register 0x2004.
    pub open spec fn after_dma(self, offset: u16, i: nat) -> CpuState
        decreases 256 - i,
    {
        if i >= 256 {
            self
        } else {
            let address = (offset + i) as u16;
            let read = self.after_load(address);
            let (ppu, rom) = read.ppu.after_store_register(
                0x2004,
                self.read_value(address),
                read.rom,
            );
            CpuState { ppu, rom, ..read }.after_dma(offset, i + 1)
        }
    }

    /// The console after a write at an address.
    #[verifier::opaque]
    pub open spec fn after_store(self, address: u16, value: u8) -> CpuState {
        if address < 0x2000 {
            CpuState { ram: self.ram.update((address & 0x07FF) as int, value), ..self }
        } else if address < 0x4000 {
            let (ppu, rom) = self.ppu.after_store_register(address & 0x2007, value, self.rom);
            CpuState { ppu, rom, ..self }
        } else if address == 0x4014 {
            // the page 0xVV00 goes to sprite memory and the processor stalls
            let (ppu, rom) = self.ppu.after_store_register(address, value, self.rom);
            let copied = CpuState { ppu, rom, ..self }.after_dma((value as u16) << 8u8, 0);
            CpuState {
                stall_cycles: copied.stall_cycles.saturating_add(DMA_STALL_CYCLES),
                ..copied
            }
        } else if address == 0x4016 {
            CpuState {
                joypad1: self.joypad1.after_store(value),
                joypad2: self.joypad2.after_store(value),
                ..self
            }
        } else if address < 0x4020 {
            CpuState { apu: self.apu.after_store_register(address, value), ..self }
        } else if address < 0x8000 {
            CpuState { ram: self.ram.update(address as int, value), ..self }
        } else {
            CpuState { rom: self.rom.after_store(address as u32, value), ..self }
        }
    }

    /// The 16 bits read at an address and the one after it, low byte first.
    #[verifier::opaque]
    pub open spec fn read_2bytes(self, address: u16) -> u16 {
        ((self.after_load(address).read_value(address.wrapping_add(1)) as u16) << 8u8)
            | self.read_value(address) as u16
    }

    #[verifier::opaque]
    pub open spec fn after_load_2bytes(self, address: u16) -> CpuState {
        self.after_load(address).after_load(address.wrapping_add(1))
    }

    /// The 16 bits at a place in page zero; the second byte does not leave
    /// the page.
    pub open spec fn read_2bytes_from_zeropage(self, address: u16) -> u16 {
        self.ram[(address & 0xff) as int] as u16 | ((self.ram[(address.wrapping_add(1) & 0xff) as int]
            as u16) << 8u8)
    }

    /// The 16 bits read at an address and the next one of its page.
    #[verifier::opaque]
    pub open spec fn read_2bytes_in_page(self, address: u16) -> u16 {
        ((self.after_load(address).read_value(next_in_page(address)) as u16) << 8u8)
            | self.read_value(address) as u16
    }

    #[verifier::opaque]
    pub open spec fn after_load_2bytes_in_page(self, address: u16) -> CpuState {
        self.after_load(address).after_load(next_in_page(address))
    }

    // ---- the stack, in page one

    pub open spec fn stack_address(self) -> u16 {
        (self.sp as u16 + 0x100) as u16
    }

    #[verifier::opaque]
    pub open spec fn after_push_stack(self, value: u8) -> CpuState {
        let stored = self.after_store(self.stack_address(), value);
        CpuState { sp: stored.sp.wrapping_sub(1), ..stored }
    }

    /// High byte first.
    #[verifier::opaque]
    pub open spec fn after_push_stack_2bytes(self, value: u16) -> CpuState {
        self.after_push_stack(((value >> 8u8) & 0xff) as u8).after_push_stack((value & 0xff) as u8)
    }

    /// The byte that a pop returns.
    #[verifier::opaque]
    pub open spec fn popped(self) -> u8 {
        CpuState { sp: self.sp.wrapping_add(1), ..self }.read_value(
            CpuState { sp: self.sp.wrapping_add(1), ..self }.stack_address(),
        )
    }

    #[verifier::opaque]
    pub open spec fn after_pop_stack(self) -> CpuState {
        let s = CpuState { sp: self.sp.wrapping_add(1), ..self };
        s.after_load(s.stack_address())
    }

    /// The 16 bits that two pops return, low byte first.
    #[verifier::opaque]
    pub open spec fn popped_2bytes(self) -> u16 {
        ((self.after_pop_stack().popped() as u16) << 8u8) | self.popped() as u16
    }

    #[verifier::opaque]
    pub open spec fn after_pop_stack_2bytes(self) -> CpuState {
        self.after_pop_stack().after_pop_stack()
    }

    // ---- interrupts

    /// The program counter takes the address of the handler.
    #[verifier::opaque]
    pub open spec fn after_jump_to_interrupt_handler(self, interrupt_type: Interrupts) -> CpuState {
        let address = interrupt_handler_address_spec(interrupt_type);
        CpuState { pc: self.read_2bytes(address), ..self.after_load_2bytes(address) }
    }

    /// Whether the processor ignores an interrupt: a request while I is set.
    pub open spec fn masks(self, interrupt_type: Interrupts) -> bool {
        interrupt_type == Interrupts::IRQ && self.p & 0x04 != 0
    }

    /// The flags as an interrupt pushes them: bit 5 set, B kept for a
    /// break and cleared otherwise.
    pub open spec fn pushed_flags(self, interrupt_type: Interrupts) -> u8 {
        if interrupt_type == Interrupts::BRK {
            self.p | 0x20
        } else {
            (self.p & !0x10u8) | 0x20
        }
    }

    /// The console after an interrupt: unless it is a reset the program
    /// counter and the flags go to the stack and I is set; then the
    /// program counter takes the address of the handler.
    #[verifier::opaque]
    pub open spec fn after_interrupt(self, interrupt_type: Interrupts) -> CpuState {
        if self.masks(interrupt_type) {
            self
        } else if interrupt_type == Interrupts::RESET {
            self.after_jump_to_interrupt_handler(interrupt_type)
        } else {
            let flags = self.pushed_flags(interrupt_type);
            let pushed = CpuState { p: flags, ..self }.after_push_stack_2bytes(
                self.pc,
            ).after_push_stack(flags);
            CpuState { p: pushed.p | 0x04, ..pushed }.after_jump_to_interrupt_handler(
                interrupt_type,
            )
        }
    }

    // ---- power and reset

    pub open spec fn after_bootup_stores(self, i: nat) -> CpuState
        decreases 0x10 - i,
    {
        if i >= 0x10 {
            self
        } else {
            self.after_store((0x4000 + i) as u16, 0).after_bootup_stores(i + 1)
        }
    }

    /// The processor at power-on: P = 0x34, SP = 0xFD, A = X = Y = 0, memory
    /// cleared, the audio registers zero, the program counter from the
    /// reset vector.
    #[verifier::opaque]
    pub open spec fn after_bootup_internal(self) -> CpuState {
        CpuState {
            p: 0x34,
            a: 0,
            x: 0,
            y: 0,
            sp: 0xFD,
            ram: Seq::new(self.ram.len(), |i: int| 0u8),
            ..self
        }.after_bootup_stores(0).after_store(
            0x4015,
            0,
        ).after_store(0x4017, 0).after_interrupt(Interrupts::RESET)
    }

    /// The console at power-on. A console without a valid cartridge does
    /// not boot.
    #[verifier::opaque]
    pub open spec fn after_bootup(self) -> CpuState {
        if self.rom.valid() {
            let s = CpuState { power_on: true, ..self }.after_bootup_internal();
            CpuState { ppu: s.ppu.after_bootup(), apu: s.apu.after_bootup(), ..s }
        } else {
            self
        }
    }

    /// SP goes down by 3 and I is set.
    #[verifier::opaque]
    pub open spec fn after_reset_internal(self) -> CpuState {
        CpuState { sp: self.sp.wrapping_sub(3), p: self.p | 0x04, ..self }
    }

    /// The console after the reset button.
    #[verifier::opaque]
    pub open spec fn after_reset(self) -> CpuState {
        let s = self.after_reset_internal();
        CpuState { ppu: s.ppu.after_reset(), apu: s.apu.after_reset(), ..s }.after_interrupt(
            Interrupts::RESET,
        )
    }

    // ---- operands

    pub open spec fn index_of(self, mode: AddressingModes) -> u16 {
        match mode {
            AddressingModes::IndexedAbsoluteX | AddressingModes::IndexedZeroPageX => self.x as u16,
            AddressingModes::IndexedAbsoluteY | AddressingModes::IndexedZeroPageY => self.y as u16,
            _ => 0,
        }
    }

    /// The address that an instruction works on.
    #[verifier::opaque]
    pub open spec fn operand_address(self, op: Operation) -> u16 {
        match op.addressing_mode {
            AddressingModes::Immediate | AddressingModes::Relative => self.pc,
            AddressingModes::Absolute | AddressingModes::IndexedAbsoluteX
            | AddressingModes::IndexedAbsoluteY => self.read_2bytes(self.pc).wrapping_add(
                self.index_of(op.addressing_mode),
            ),
            AddressingModes::ZeroPage | AddressingModes::IndexedZeroPageX
            | AddressingModes::IndexedZeroPageY => (self.read_value(self.pc) as u16).wrapping_add(
                self.index_of(op.addressing_mode),
            ) & 0xFF,
            AddressingModes::Indirect => CpuState {
                pc: self.pc.wrapping_add(2),
                ..self.after_load_2bytes(self.pc)
            }.read_2bytes_in_page(self.read_2bytes(self.pc)),
            AddressingModes::IndexedIndirectX => self.after_load(
                self.pc,
            ).read_2bytes_from_zeropage(
                (self.read_value(self.pc).wrapping_add(self.x) & 0xFF) as u16,
            ),
            AddressingModes::IndexedIndirectY => self.after_load(
                self.pc,
            ).read_2bytes_from_zeropage(self.read_value(self.pc) as u16).wrapping_add(
                self.y as u16,
            ),
            _ => 0,
        }
    }

    /// Whether finding the operand costs a cycle for crossing a page.
    #[verifier::opaque]
    pub open spec fn operand_crosses_page(self, op: Operation) -> bool {
        pays_page_cross(op.instruction_type) && match op.addressing_mode {
            AddressingModes::Absolute | AddressingModes::IndexedAbsoluteX
            | AddressingModes::IndexedAbsoluteY => page_crossed(
                self.read_2bytes(self.pc),
                self.operand_address(op),
            ),
            AddressingModes::IndexedIndirectY => page_crossed(
                self.after_load(self.pc).read_2bytes_from_zeropage(
                    self.read_value(self.pc) as u16,
                ),
                self.operand_address(op),
            ),
            _ => false,
        }
    }

    /// The console after the operand's address has been found: the program
    /// counter has passed the operand bytes.
    #[verifier::opaque]
    pub open spec fn after_operand_address(self, op: Operation) -> CpuState {
        let stall = if self.operand_crosses_page(op) {
            self.stall_cycles.saturating_add(1)
        } else {
            self.stall_cycles
        };
        match op.addressing_mode {
            AddressingModes::Immediate | AddressingModes::Relative => CpuState {
                pc: self.pc.wrapping_add(1),
                ..self
            },
            AddressingModes::Absolute | AddressingModes::IndexedAbsoluteX
            | AddressingModes::IndexedAbsoluteY => CpuState {
                pc: self.pc.wrapping_add(2),
                stall_cycles: stall,
                ..self.after_load_2bytes(self.pc)
            },
            AddressingModes::ZeroPage | AddressingModes::IndexedZeroPageX
            | AddressingModes::IndexedZeroPageY | AddressingModes::IndexedIndirectX => CpuState {
                pc: self.pc.wrapping_add(1),
                ..self.after_load(self.pc)
            },
            AddressingModes::Indirect => CpuState {
                pc: self.pc.wrapping_add(2),
                ..self.after_load_2bytes(self.pc)
            }.after_load_2bytes_in_page(self.read_2bytes(self.pc)),
            AddressingModes::IndexedIndirectY => CpuState {
                pc: self.pc.wrapping_add(1),
                stall_cycles: stall,
                ..self.after_load(self.pc)
            },
            _ => self,
        }
    }

    /// The operand of an instruction, on 16 bits: the accumulator, or the
    /// byte at the operand's address, read as a signed distance by a branch.
    #[verifier::opaque]
    pub open spec fn operand(self, op: Operation) -> u16 {
        match op.addressing_mode {
            AddressingModes::Accumulator => self.a as u16,
            AddressingModes::Relative => sign_extended(
                self.after_operand_address(op).read_value(self.operand_address(op)) as u16,
            ),
            _ => self.after_operand_address(op).read_value(self.operand_address(op)) as u16,
        }
    }

    #[verifier::opaque]
    pub open spec fn after_operand(self, op: Operation) -> CpuState {
        match op.addressing_mode {
            AddressingModes::Accumulator => self,
            _ => self.after_operand_address(op).after_load(self.operand_address(op)),
        }
    }

    /// The console after a value has gone where the instruction points.
    #[verifier::opaque]
    pub open spec fn after_store_operand(self, op: Operation, value: u8) -> CpuState {
        match op.addressing_mode {
            AddressingModes::Accumulator => CpuState { a: value, ..self },
            _ => self.after_operand_address(op).after_store(self.operand_address(op), value),
        }
    }

    /// The byte that a read-modify-write instruction works on.
    #[verifier::opaque]
    pub open spec fn memory_operand(self, op: Operation) -> u8 {
        match op.addressing_mode {
            AddressingModes::Accumulator => self.a,
            _ => self.after_operand_address(op).read_value(self.operand_address(op)),
        }
    }

    /// The console after `value` has replaced the byte that a
    /// read-modify-write instruction works on.
    #[verifier::opaque]
    pub open spec fn after_update_memory(self, op: Operation, value: u8) -> CpuState {
        match op.addressing_mode {
            AddressingModes::Accumulator => CpuState { a: value, ..self },
            _ => self.after_operand_address(op).after_load(self.operand_address(op)).after_store(
                self.operand_address(op),
                value,
            ),
        }
    }

    // ---- instructions

    pub open spec fn with_nz(self, value: u16) -> CpuState {
        CpuState { p: with_z(with_n(self.p, value), value), ..self }
    }

    pub open spec fn with_nzc(self, value: u16) -> CpuState {
        CpuState { p: with_c(with_z(with_n(self.p, value), value), value), ..self }
    }

    /// A + M + C on 16 bits.
    #[verifier::opaque]
    pub open spec fn adc_result(self, op: Operation) -> u16 {
        (self.a as u16).wrapping_add(self.operand(op)).wrapping_add(carry_of(self.p))
    }

    #[verifier::opaque]
    pub open spec fn after_adc(self, op: Operation) -> CpuState {
        let result = self.adc_result(op);
        let s = CpuState { a: result as u8, ..self.after_operand(op) }.with_nzc(result);
        CpuState { p: with_flag(s.p, 0x40, adc_overflow(self.a, self.operand(op), result)), ..s }
    }

    /// A - M - (1 - C) on 16 bits.
    #[verifier::opaque]
    pub open spec fn sbc_result(self, op: Operation) -> u16 {
        (self.a as u16).wrapping_sub(self.operand(op)).wrapping_sub((1 - carry_of(self.p)) as u16)
    }

    #[verifier::opaque]
    pub open spec fn after_sbc(self, op: Operation) -> CpuState {
        let result = self.sbc_result(op);
        let borrow = (1 - carry_of(self.p)) as u16;
        let s = CpuState { a: result as u8, ..self.after_operand(op) }.with_nz(result);
        let carried = with_flag(s.p, 0x01, self.a as u16 >= self.operand(op).wrapping_add(borrow));
        CpuState {
            p: with_flag(carried, 0x40, sbc_overflow(self.a, self.operand(op), result)),
            ..s
        }
    }

    /// AND, EOR and ORA: the accumulator combined with the operand.
    #[verifier::opaque]
    pub open spec fn logic_result(self, op: Operation) -> u16 {
        match op.instruction_type {
            InstructionTypes::AND => (self.a as u16) & self.operand(op),
            InstructionTypes::EOR => (self.a as u16) ^ self.operand(op),
            _ => (self.a as u16) | self.operand(op),
        }
    }

    #[verifier::opaque]
    pub open spec fn after_logic(self, op: Operation) -> CpuState {
        let result = self.logic_result(op);
        CpuState { a: result as u8, ..self.after_operand(op) }.with_nz(result)
    }

    /// ASL, DEC and INC: a byte replaced by what the instruction makes of it.
    #[verifier::opaque]
    pub open spec fn after_modify(self, op: Operation) -> CpuState {
        let result = modified(op.instruction_type, self.memory_operand(op));
        let s = self.after_update_memory(op, result as u8);
        if op.instruction_type == InstructionTypes::ASL {
            s.with_nzc(result)
        } else {
            s.with_nz(result)
        }
    }

    /// A branch: where the condition holds the program counter moves by
    /// the signed distance; that costs one cycle, and one more where the
    /// target lies in another page.
    #[verifier::opaque]
    pub open spec fn after_branch(self, op: Operation, flag: bool) -> CpuState {
        let s = self.after_operand(op);
        if flag {
            let target = s.pc.wrapping_add(self.operand(op));
            CpuState {
                pc: target,
                stall_cycles: if page_crossed(s.pc, target) {
                    s.stall_cycles.saturating_add(1).saturating_add(1)
                } else {
                    s.stall_cycles.saturating_add(1)
                },
                ..s
            }
        } else {
            s
        }
    }

    /// Whether a branch instruction branches.
    pub open spec fn branches(self, instruction_type: InstructionTypes) -> bool {
        match instruction_type {
            InstructionTypes::BCC => self.p & 0x01 == 0,
            InstructionTypes::BCS => self.p & 0x01 != 0,
            InstructionTypes::BEQ => self.p & 0x02 != 0,
            InstructionTypes::BNE => self.p & 0x02 == 0,
            InstructionTypes::BMI => self.p & 0x80 != 0,
            InstructionTypes::BPL => self.p & 0x80 == 0,
            InstructionTypes::BVC => self.p & 0x40 == 0,
            _ => self.p & 0x40 != 0,
        }
    }

    /// BIT: Z from A and M, N and V from bits 7 and 6 of M.
    #[verifier::opaque]
    pub open spec fn after_bit(self, op: Operation) -> CpuState {
        let src2 = self.operand(op);
        let result = (self.a as u16) & src2;
        let s = self.after_operand(op);
        CpuState { p: with_flag(with_z(with_n(s.p, src2), result), 0x40, (src2 & 0x40) != 0), ..s }
    }

    /// BRK: the byte after the instruction is skipped, B is set, and the
    /// break is served like an interrupt.
    #[verifier::opaque]
    pub open spec fn after_brk(self) -> CpuState {
        CpuState { pc: self.pc.wrapping_add(1), p: (self.p | 0x20) | 0x10, ..self }.after_interrupt(
            Interrupts::BRK,
        )
    }

    /// The register that a comparison works on.
    pub open spec fn compared_register(self, instruction_type: InstructionTypes) -> u8 {
        match instruction_type {
            InstructionTypes::CMP => self.a,
            InstructionTypes::CPX => self.x,
            _ => self.y,
        }
    }

    /// CMP, CPX and CPY: N and Z from register minus M, C where the register
    /// is not below M.
    #[verifier::opaque]
    pub open spec fn after_compare(self, op: Operation) -> CpuState {
        let src1 = self.compared_register(op.instruction_type);
        let src2 = self.operand(op);
        let result = (src1 as u16).wrapping_sub(src2);
        let s = self.after_operand(op).with_nz(result);
        CpuState { p: with_flag(s.p, 0x01, src1 as u16 >= src2), ..s }
    }

    /// DEX, DEY, INX and INY.
    #[verifier::opaque]
    pub open spec fn after_count_register(self, instruction_type: InstructionTypes) -> CpuState {
        match instruction_type {
            InstructionTypes::DEX => CpuState {
                x: (self.x as u16).wrapping_sub(1) as u8,
                ..self
            }.with_nz((self.x as u16).wrapping_sub(1)),
            InstructionTypes::DEY => CpuState {
                y: (self.y as u16).wrapping_sub(1) as u8,
                ..self
            }.with_nz((self.y as u16).wrapping_sub(1)),
            InstructionTypes::INX => CpuState {
                x: (self.x as u16).wrapping_add(1) as u8,
                ..self
            }.with_nz((self.x as u16).wrapping_add(1)),
            _ => CpuState { y: (self.y as u16).wrapping_add(1) as u8, ..self }.with_nz(
                (self.y as u16).wrapping_add(1),
            ),
        }
    }

    #[verifier::opaque]
    pub open spec fn after_jmp(self, op: Operation) -> CpuState {
        CpuState { pc: self.operand_address(op), ..self.after_operand_address(op) }
    }

    /// JSR: the address of the last byte of the instruction goes to the stack.
    #[verifier::opaque]
    pub open spec fn after_jsr(self, op: Operation) -> CpuState {
        let s = self.after_operand_address(op);
        let back = s.pc.wrapping_sub(1);
        CpuState { pc: self.operand_address(op), ..CpuState { pc: back, ..s }.after_push_stack_2bytes(back) }
    }

    /// LDA, LDX and LDY.
    #[verifier::opaque]
    pub open spec fn after_load_instruction(self, op: Operation) -> CpuState {
        let result = self.operand(op);
        let s = self.after_operand(op);
        match op.instruction_type {
            InstructionTypes::LDA => CpuState { a: result as u8, ..s },
            InstructionTypes::LDX => CpuState { x: result as u8, ..s },
            _ => CpuState { y: result as u8, ..s },
        }.with_nz(result)
    }

    /// LSR: bit 0 goes to C, N is cleared.
    #[verifier::opaque]
    pub open spec fn after_lsr(self, op: Operation) -> CpuState {
        let src = self.memory_operand(op);
        let result = (src as u16) >> 1u8;
        let s = self.after_update_memory(op, result as u8);
        CpuState { p: with_z(with_flag(s.p, 0x01, (src & 1) != 0) & !0x80u8, result), ..s }
    }

    /// ROL: C comes in at bit 0, bit 7 goes to C.
    #[verifier::opaque]
    pub open spec fn after_rol(self, op: Operation) -> CpuState {
        let src = self.memory_operand(op);
        let result = ((src as u16) << 1u8) | carry_of(self.p);
        self.after_update_memory(op, result as u8).with_nzc(result)
    }

    /// ROR: C comes in at bit 7, bit 0 goes to C.
    #[verifier::opaque]
    pub open spec fn after_ror(self, op: Operation) -> CpuState {
        let src = self.memory_operand(op);
        let c: u16 = if self.p & 0x01 != 0 {
            0x80
        } else {
            0
        };
        let result = ((src as u16) >> 1u8) | c;
        let s = self.after_update_memory(op, result as u8);
        CpuState { p: with_flag(s.p, 0x01, (src & 1) != 0), ..s }.with_nz(result)
    }

    #[verifier::opaque]
    pub open spec fn after_pha(self) -> CpuState {
        self.after_push_stack(self.a)
    }

    /// PHP: bits 5 and 4 are set, then the flags go to the stack.
    #[verifier::opaque]
    pub open spec fn after_php(self) -> CpuState {
        CpuState { p: (self.p | 0x20) | 0x10, ..self }.after_push_stack((self.p | 0x20) | 0x10)
    }

    #[verifier::opaque]
    pub open spec fn after_pla(self) -> CpuState {
        CpuState { a: (self.popped() as u16) as u8, ..self.after_pop_stack() }.with_nz(
            self.popped() as u16,
        )
    }

    #[verifier::opaque]
    pub open spec fn after_plp(self) -> CpuState {
        CpuState { p: self.popped(), ..self.after_pop_stack() }
    }

    #[verifier::opaque]
    pub open spec fn after_rti(self) -> CpuState {
        let flagged = CpuState { p: self.popped(), ..self.after_pop_stack() };
        CpuState { pc: flagged.popped_2bytes(), ..flagged.after_pop_stack_2bytes() }
    }

    #[verifier::opaque]
    pub open spec fn after_rts(self) -> CpuState {
        CpuState { pc: self.popped_2bytes().wrapping_add(1), ..self.after_pop_stack_2bytes() }
    }

    /// STA, STX and STY.
    #[verifier::opaque]
    pub open spec fn after_store_instruction(self, op: Operation) -> CpuState {
        let value = match op.instruction_type {
            InstructionTypes::STA => self.a,
            InstructionTypes::STX => self.x,
            _ => self.y,
        };
        self.after_store_operand(op, value)
    }

    /// TAX, TAY, TSX, TXA, TXS and TYA; all but TXS set N and Z.
    #[verifier::opaque]
    pub open spec fn after_transfer(self, instruction_type: InstructionTypes) -> CpuState {
        match instruction_type {
            InstructionTypes::TAX => CpuState { x: (self.a as u16) as u8, ..self }.with_nz(
                self.a as u16,
            ),
            InstructionTypes::TAY => CpuState { y: (self.a as u16) as u8, ..self }.with_nz(
                self.a as u16,
            ),
            InstructionTypes::TSX => CpuState { x: (self.sp as u16) as u8, ..self }.with_nz(
                self.sp as u16,
            ),
            InstructionTypes::TXA => CpuState { a: (self.x as u16) as u8, ..self }.with_nz(
                self.x as u16,
            ),
            InstructionTypes::TXS => CpuState { sp: self.x, ..self },
            _ => CpuState { a: (self.y as u16) as u8, ..self }.with_nz(self.y as u16),
        }
    }

    /// CLC, CLD, CLI, CLV, SEC, SED and SEI.
    #[verifier::opaque]
    pub open spec fn after_flag_instruction(self, instruction_type: InstructionTypes) -> CpuState {
        match instruction_type {
            InstructionTypes::CLC => CpuState { p: self.p & !0x01u8, ..self },
            InstructionTypes::CLD => CpuState { p: self.p & !0x08u8, ..self },
            InstructionTypes::CLI => CpuState { p: self.p & !0x04u8, ..self },
            InstructionTypes::CLV => CpuState { p: self.p & !0x40u8, ..self },
            InstructionTypes::SEC => CpuState { p: self.p | 0x01, ..self },
            InstructionTypes::SED => CpuState { p: self.p | 0x08, ..self },
            _ => CpuState { p: self.p | 0x04, ..self },
        }
    }

    /// An operation code that is no instruction changes nothing but the
    /// count of such codes.
    #[verifier::opaque]
    pub open spec fn after_invalid(self) -> CpuState {
        CpuState {
            invalid_operations: if self.invalid_operations == u32::MAX {
                self.invalid_operations
            } else {
                (self.invalid_operations + 1) as u32
            },
            ..self
        }
    }

    /// The console after an instruction whose operation code has been fetched.
    #[verifier::opaque]
    pub open spec fn after_operate(self, op: Operation) -> CpuState {
        match op.instruction_type {
            InstructionTypes::INV => self.after_invalid(),
            InstructionTypes::ADC => self.after_adc(op),
            InstructionTypes::SBC => self.after_sbc(op),
            InstructionTypes::AND | InstructionTypes::EOR | InstructionTypes::ORA => self.after_logic(
                op,
            ),
            InstructionTypes::ASL | InstructionTypes::DEC | InstructionTypes::INC => self.after_modify(
                op,
            ),
            InstructionTypes::BCC | InstructionTypes::BCS | InstructionTypes::BEQ
            | InstructionTypes::BMI | InstructionTypes::BNE | InstructionTypes::BPL
            | InstructionTypes::BVC | InstructionTypes::BVS => self.after_branch(
                op,
                self.branches(op.instruction_type),
            ),
            InstructionTypes::BIT => self.after_bit(op),
            InstructionTypes::BRK => self.after_brk(),
            InstructionTypes::CLC | InstructionTypes::CLD | InstructionTypes::CLI
            | InstructionTypes::CLV | InstructionTypes::SEC | InstructionTypes::SED
            | InstructionTypes::SEI => self.after_flag_instruction(op.instruction_type),
            InstructionTypes::CMP | InstructionTypes::CPX | InstructionTypes::CPY => self.after_compare(
                op,
            ),
            InstructionTypes::DEX | InstructionTypes::DEY | InstructionTypes::INX
            | InstructionTypes::INY => self.after_count_register(op.instruction_type),
            InstructionTypes::JMP => self.after_jmp(op),
            InstructionTypes::JSR => self.after_jsr(op),
            InstructionTypes::LDA | InstructionTypes::LDX | InstructionTypes::LDY => self.after_load_instruction(
                op,
            ),
            InstructionTypes::LSR => self.after_lsr(op),
            InstructionTypes::NOP => self,
            InstructionTypes::PHA => self.after_pha(),
            InstructionTypes::PHP => self.after_php(),
            InstructionTypes::PLA => self.after_pla(),
            InstructionTypes::PLP => self.after_plp(),
            InstructionTypes::ROL => self.after_rol(op),
            InstructionTypes::ROR => self.after_ror(op),
            InstructionTypes::RTI => self.after_rti(),
            InstructionTypes::RTS => self.after_rts(),
            InstructionTypes::STA | InstructionTypes::STX | InstructionTypes::STY => self.after_store_instruction(
                op,
            ),
            InstructionTypes::TAX | InstructionTypes::TAY | InstructionTypes::TSX
            | InstructionTypes::TXA | InstructionTypes::TXS | InstructionTypes::TYA => self.after_transfer(
                op.instruction_type,
            ),
        }
    }

    // ---- the state as text

    /// The operand of the instruction at `pc - 1` as text, for each
    /// addressing mode, and the console after the reads that finding it
    /// takes: the operand bytes, what they point at and the name of the mode.
    #[verifier::opaque]
    pub open spec fn operand_dump(self, mode: AddressingModes, pc: u16) -> (CpuState, Seq<char>) {
        match mode {
            AddressingModes::Immediate => (
                self.after_load(pc),
                "#"@ + hex_u8(self.read_value(pc)) + " "@ + "immediate"@,
            ),
            AddressingModes::Relative => (
                self.after_load(pc),
                hex_u8(self.read_value(pc)) + " "@ + "relative"@,
            ),
            AddressingModes::Absolute => {
                let address = self.read_2bytes(pc);
                let read = self.after_load_2bytes(pc);
                (
                    read.after_load(address),
                    hex_u16(address) + " "@ + bracketed(read.read_value(address)) + "absolute"@,
                )
            },
            AddressingModes::IndexedAbsoluteX => {
                let address = self.read_2bytes(pc);
                let read = self.after_load_2bytes(pc);
                let target = (read.x as u16).wrapping_add(address);
                (
                    read.after_load(target),
                    hex_u16(address) + ",X "@ + bracketed(read.read_value(target))
                        + "indexed_absolute_x"@,
                )
            },
            AddressingModes::IndexedAbsoluteY => {
                let address = self.read_2bytes(pc);
                let read = self.after_load_2bytes(pc);
                let target = (read.y as u16).wrapping_add(address);
                (
                    read.after_load(target),
                    hex_u16(address) + ",Y "@ + bracketed(read.read_value(target))
                        + "indexed_absolute_y"@,
                )
            },
            AddressingModes::ZeroPage => {
                let address = self.read_value(pc);
                let read = self.after_load(pc);
                (
                    read.after_load(address as u16),
                    hex_u8(address) + " "@ + bracketed(read.read_value(address as u16))
                        + "zero_page"@,
                )
            },
            AddressingModes::IndexedZeroPageX => {
                let address = self.read_value(pc);
                let read = self.after_load(pc);
                let target = read.x.wrapping_add(address) as u16;
                (
                    read.after_load(target),
                    hex_u8(address) + ",X "@ + bracketed(read.read_value(target))
                        + "indexed_zero_page_x"@,
                )
            },
            AddressingModes::IndexedZeroPageY => {
                let address = self.read_value(pc);
                let read = self.after_load(pc);
                let target = read.y.wrapping_add(address) as u16;
                (
                    read.after_load(target),
                    hex_u8(address) + ",Y "@ + bracketed(read.read_value(target))
                        + "indexed_zero_page_y"@,
                )
            },
            AddressingModes::Indirect => {
                let address = self.read_2bytes(pc);
                let read = self.after_load_2bytes(pc);
                let target = read.read_2bytes(address);
                let pointed = read.after_load_2bytes(address);
                (
                    pointed.after_load(target),
                    hex_u16(address) + " "@ + bracketed_at(target, pointed.read_value(target))
                        + "indirect"@,
                )
            },
            AddressingModes::IndexedIndirectX => {
                let address = self.read_value(pc);
                let read = self.after_load(pc);
                let target = (read.x as u16).wrapping_add(address as u16);
                (
                    read.after_load(target),
                    hex_u8(address) + ",X "@ + bracketed_at(target, read.read_value(target))
                        + "indexed_indirect_x"@,
                )
            },
            AddressingModes::IndexedIndirectY => {
                let address = self.read_value(pc);
                let read = self.after_load(pc);
                let target = read.read_2bytes_from_zeropage(address as u16).wrapping_add(
                    read.x as u16,
                );
                (
                    read.after_load(target),
                    hex_u8(address) + ",Y "@ + bracketed_at(target, read.read_value(target))
                        + "indexed_indirect_y"@,
                )
            },
            AddressingModes::Accumulator => (self, "A"@ + hex_u8(self.a) + " "@ + "accumulator"@),
            AddressingModes::Implied => (self, ""@),
        }
    }

    /// The registers as text, before the operand.
    pub open spec fn registers_text(self, opc: u8) -> Seq<char> {
        "p:"@ + status_text(self.p) + " "@ + "pc:"@ + hex_u16(self.pc) + "("@ + hex_u8(opc) + ")"@
            + " "@ + "sp:"@ + hex_u8(self.sp) + " "@ + "a:"@ + hex_u8(self.a) + " "@ + "x:"@
            + hex_u8(self.x) + " "@ + "y:"@ + hex_u8(self.y) + " "@
    }

    /// The registers, the instruction that the program counter points at
    /// and its operand as text, and the console after the reads that
    /// writing this down takes.
    #[verifier::opaque]
    pub open spec fn dump_spec(self) -> (CpuState, Seq<char>) {
        let opc = self.read_value(self.pc);
        let read = self.after_load(self.pc);
        let op = operation_spec(opc);
        let (after, operand) = read.operand_dump(op.addressing_mode, read.pc.wrapping_add(1));
        (
            after,
            read.registers_text(opc) + instruction_name_text(op.instruction_type) + " "@ + operand,
        )
    }

    // ---- steps

    /// The console after the interrupts that wait have been served: the
    /// non-maskable one first, then the cartridge's, then the audio unit's.
    #[verifier::opaque]
    pub open spec fn after_pending_interrupts(self) -> CpuState {
        let after_nmi = if self.ppu.nmi_interrupted {
            CpuState { ppu: PpuState { nmi_interrupted: false, ..self.ppu }, ..self }.after_interrupt(
                Interrupts::NMI,
            )
        } else {
            self
        };
        let after_cartridge = if after_nmi.ppu.irq_interrupted {
            CpuState { ppu: PpuState { irq_interrupted: false, ..after_nmi.ppu }, ..after_nmi }.after_interrupt(
                Interrupts::IRQ,
            )
        } else {
            after_nmi
        };
        if after_cartridge.apu.irq_interrupted {
            CpuState { apu: ApuState { irq_interrupted: false, ..after_cartridge.apu }, ..after_cartridge }.after_interrupt(
                Interrupts::IRQ,
            )
        } else {
            after_cartridge
        }
    }

    /// The operation that the program counter points at.
    #[verifier::opaque]
    pub open spec fn fetched(self) -> Operation {
        operation_spec(self.read_value(self.pc))
    }

    #[verifier::opaque]
    pub open spec fn after_fetch(self) -> CpuState {
        CpuState { pc: self.pc.wrapping_add(1), ..self.after_load(self.pc) }
    }

    /// The console after the processor's part of a step, before the other
    /// units have caught up.
    #[verifier::opaque]
    pub open spec fn after_instruction(self) -> CpuState {
        let ready = self.after_pending_interrupts();
        ready.after_fetch().after_operate(ready.fetched())
    }

    /// The cycles that a step takes: those of the instruction and the
    /// stalls that have come up.
    #[verifier::opaque]
    pub open spec fn step_cycles(self) -> u16 {
        self.after_instruction().stall_cycles.saturating_add(
            self.after_pending_interrupts().fetched().cycle as u16,
        )
    }

    #[verifier::opaque]
    pub open spec fn after_step_internal(self) -> CpuState {
        CpuState { stall_cycles: 0, ..self.after_instruction() }
    }

    /// The console after the picture unit has run for `n` dots.
    #[verifier::opaque]
    pub open spec fn after_ppu_steps(self, n: nat) -> CpuState {
        CpuState {
            ppu: self.ppu.after_steps(self.rom, n).0,
            rom: self.ppu.after_steps(self.rom, n).1,
            ..self
        }
    }

    /// The console after one cycle of the audio unit. Where the delta
    /// channel wants a byte the processor reads it and stalls.
    #[verifier::opaque]
    pub open spec fn after_apu_step(self) -> CpuState {
        if self.apu.cycle % 2 == 1 && self.apu.dmc.needs_cpu_memory_data_spec() {
            let stalled = CpuState {
                stall_cycles: self.stall_cycles.saturating_add(DMC_STALL_CYCLES),
                ..self
            };
            let read = stalled.after_load(stalled.apu.dmc.address_counter);
            CpuState {
                apu: read.apu.after_step(stalled.read_value(stalled.apu.dmc.address_counter)),
                ..read
            }
        } else {
            CpuState { apu: self.apu.after_step(0), ..self }
        }
    }

    pub open spec fn after_apu_steps(self, n: nat) -> CpuState
        decreases n,
    {
        if n == 0 {
            self
        } else {
            self.after_apu_steps((n - 1) as nat).after_apu_step()
        }
    }

    /// The console after one step: one instruction, then three dots of the
    /// picture unit and one cycle of the audio unit for each cycle taken.
    #[verifier::opaque]
    pub open spec fn after_step(self) -> CpuState {
        self.after_step_internal().after_ppu_steps((3 * self.step_cycles()) as nat).after_apu_steps(
            self.step_cycles() as nat,
        )
    }

    /// The console after `n` steps.
    pub open spec fn after_steps(self, n: nat) -> CpuState
        decreases n,
    {
        if n == 0 {
            self
        } else {
            self.after_steps((n - 1) as nat).after_step()
        }
    }

    /// Whether step `n` is the first after which the picture unit is in
    /// another frame.
    pub open spec fn frame_ends_after(self, n: nat) -> bool {
        &&& n >= 1
        &&& self.after_steps(n).ppu.frame != self.ppu.frame
        &&& forall|m: nat| 1 <= m < n ==> (#[trigger] self.after_steps(m)).ppu.frame == self.ppu.frame
    }

    /// How many steps it takes until the picture unit is in another frame.
    pub open spec fn steps_to_frame_end(self) -> nat {
        choose|n: nat| self.frame_ends_after(n)
    }

    /// The console after the steps that end the frame.
    pub open spec fn after_frame(self) -> CpuState {
        self.after_steps(self.steps_to_frame_end())
    }

    /// The console after the button events that wait have been taken and
    /// the frame has been run to its end.
    pub open spec fn after_step_frame(self) -> CpuState {
        self.after_inputs().after_frame()
    }

    // ---- buttons

    /// The console after one button event.
    #[verifier::opaque]
    pub open spec fn after_input(self, button: Button, event: Event) -> CpuState {
        match button {
            Button::Poweroff => CpuState { power_on: false, ..self },
            Button::Reset => self.after_reset(),
            _ => if on_second_joypad(button) {
                CpuState {
                    joypad2: self.joypad2.after_input(to_joypad_button_spec(button), event),
                    ..self
                }
            } else {
                CpuState {
                    joypad1: self.joypad1.after_input(to_joypad_button_spec(button), event),
                    ..self
                }
            },
        }
    }

    /// The console after every pending button event, oldest first.
    pub open spec fn after_inputs(self) -> CpuState
        decreases self.input.len(),
    {
        if self.input.len() == 0 {
            self
        } else {
            // an event does not touch the events behind it
            CpuState {
                input: self.input.drop_first(),
                ..CpuState { input: self.input.drop_first(), ..self }.after_input(
                    self.input[0].0,
                    self.input[0].1,
                )
            }.after_inputs()
        }
    }
}

} // verus!
