//! What holds of the processor whatever state the console is in.

use vstd::prelude::*;
use crate::cpu_state::{
    adc_overflow,
    carry_of,
    next_in_page,
    page_crossed,
    sbc_overflow,
    with_c,
    with_flag,
    with_n,
    with_z,
    CpuState,
    Interrupts,
};
use crate::cpu_state::sign_extended;
use crate::operation::{AddressingModes, InstructionTypes, Operation};

verus! {

proof fn lemma_flag_bits(p: u8)
    by (bit_vector)
    ensures
        (p | 0x04) & 0x04 != 0,
        (p | 0x20) & 0x20 != 0,
        ((p & !0x10u8) | 0x20) & 0x20 != 0,
        ((p | 0x20) | 0x10) & 0x20 != 0,
        ((p | 0x20) | 0x10) & 0x10 != 0,
        ((p & !0x10u8) | 0x20) & 0x10 == 0,
{
}

proof fn lemma_stack_bits(sp: u8)
    by (bit_vector)
    ensures
        ((sp as u16 + 0x100) as u16) & 0x07FF == sp as u16 + 0x100,
        ((sp as u16 + 0x100) as u16) < 0x2000,
{
}

/// The reset button lowers the stack pointer by 3, modulo 256, and sets I.
pub proof fn lemma_reset_lowers_sp_and_sets_i(s: CpuState)
    ensures
        s.after_reset().sp == s.sp.wrapping_sub(3),
        s.after_reset().p & 0x04 != 0,
{
    reveal(CpuState::after_reset);
    reveal(CpuState::after_reset_internal);
    reveal(CpuState::after_interrupt);
    reveal(CpuState::after_jump_to_interrupt_handler);
    reveal(CpuState::after_load_2bytes);
    reveal(CpuState::after_load);
    lemma_flag_bits(s.p);
}

/// Whenever an interrupt pushes the flags, bit 5 of the pushed byte is
/// set; bit 4 is set for a break alone.
pub proof fn lemma_pushed_flags_show_bit_5(s: CpuState, interrupt_type: Interrupts)
    ensures
        s.pushed_flags(interrupt_type) & 0x20 != 0,
        interrupt_type != Interrupts::BRK ==> s.pushed_flags(interrupt_type) & 0x10 == 0,
{
    lemma_flag_bits(s.p);
}

/// A push leaves the byte at the top of the stack, in page one, and lowers
/// the stack pointer by one, modulo 256.
pub proof fn lemma_push_writes_page_one(s: CpuState, value: u8)
    requires
        s.wf(),
    ensures
        s.after_push_stack(value) == (CpuState {
            ram: s.ram.update(0x100 + s.sp, value),
            sp: s.sp.wrapping_sub(1),
            ..s
        }),
        s.after_push_stack(value).wf(),
{
    reveal(CpuState::after_push_stack);
    reveal(CpuState::after_store);
    lemma_stack_bits(s.sp);
}

/// PHP leaves the flags on the stack with bits 5 and 4 set.
pub proof fn lemma_php_pushes_bit_5(s: CpuState)
    requires
        s.wf(),
    ensures
        s.after_php().ram[0x100 + s.sp] & 0x20 != 0,
        s.after_php().ram[0x100 + s.sp] & 0x10 != 0,
        s.after_php().sp == s.sp.wrapping_sub(1),
{
    reveal(CpuState::after_php);
    lemma_flag_bits(s.p);
    lemma_push_writes_page_one(CpuState { p: (s.p | 0x20) | 0x10, ..s }, (s.p | 0x20) | 0x10);
}

/// An interrupt that is served, other than a reset, leaves the flags on
/// the stack with bit 5 set, below the two bytes of the program counter,
/// and sets I.
pub proof fn lemma_interrupt_pushes_bit_5(s: CpuState, interrupt_type: Interrupts)
    requires
        s.wf(),
        interrupt_type != Interrupts::RESET,
        !s.masks(interrupt_type),
    ensures
        s.after_interrupt(interrupt_type).ram[0x100 + s.sp.wrapping_sub(2)] & 0x20 != 0,
        s.after_interrupt(interrupt_type).sp == s.sp.wrapping_sub(3),
        s.after_interrupt(interrupt_type).p & 0x04 != 0,
{
    reveal(CpuState::after_interrupt);
    reveal(CpuState::after_push_stack_2bytes);
    reveal(CpuState::after_jump_to_interrupt_handler);
    reveal(CpuState::after_load_2bytes);
    reveal(CpuState::after_load);
    let flags = s.pushed_flags(interrupt_type);
    lemma_flag_bits(s.p);
    lemma_flag_bits(flags);
    let marked = CpuState { p: flags, ..s };
    let high = ((s.pc >> 8u8) & 0xff) as u8;
    let low = (s.pc & 0xff) as u8;
    lemma_push_writes_page_one(marked, high);
    let high_pushed = marked.after_push_stack(high);
    lemma_push_writes_page_one(high_pushed, low);
    let low_pushed = high_pushed.after_push_stack(low);
    lemma_push_writes_page_one(low_pushed, flags);
}

proof fn lemma_page_bits(address: u16, next: u16)
    by (bit_vector)
    requires
        address & 0xff == 0xff,
        next == if address == 0xffff {
            0u16
        } else {
            (address + 1) as u16
        },
    ensures
        (address & 0xff00) | (next & 0xff) == address & 0xff00,
{
}

/// The pointer of an indirect jump does not leave its page: behind an
/// address that ends in 0xFF comes the first address of the same page.
pub proof fn lemma_pointer_wraps_in_page(address: u16)
    requires
        address & 0xff == 0xff,
    ensures
        next_in_page(address) == address & 0xff00,
{
    lemma_page_bits(address, address.wrapping_add(1));
}

/// A jump through a pointer that ends in 0xFF takes the high byte of its
/// target from the start of the pointer's page.
pub proof fn lemma_indirect_jump_reads_high_byte_in_page(s: CpuState, pointer: u16)
    requires
        pointer & 0xff == 0xff,
    ensures
        s.read_2bytes_in_page(pointer) == ((s.after_load(pointer).read_value(pointer & 0xff00) as u16)
            << 8u8) | s.read_value(pointer) as u16,
{
    reveal(CpuState::read_2bytes_in_page);
    lemma_pointer_wraps_in_page(pointer);
}

/// A branch that is not taken costs nothing beyond the instruction; one
/// that is taken costs one cycle, and two where the target lies in another
/// page than the instruction behind the branch.
pub proof fn lemma_branch_costs(s: CpuState, op: Operation, flag: bool)
    requires
        s.after_operand(op).stall_cycles <= 0xfffd,
    ensures
        ({
            let fetched = s.after_operand(op);
            let target = fetched.pc.wrapping_add(s.operand(op));
            s.after_branch(op, flag).stall_cycles == fetched.stall_cycles + if !flag {
                0int
            } else if page_crossed(fetched.pc, target) {
                2int
            } else {
                1int
            }
        }),
{
    reveal(CpuState::after_branch);
}

/// The step that ends a frame is the same however it is found: what a
/// frame leaves behind depends on nothing but the state it starts from.
pub proof fn lemma_frame_end_is_unique(s: CpuState, n1: nat, n2: nat)
    requires
        s.frame_ends_after(n1),
        s.frame_ends_after(n2),
    ensures
        n1 == n2,
        s.after_steps(n1) == s.after_steps(n2),
        s.steps_to_frame_end() == n1,
        s.after_frame() == s.after_steps(n1),
{
    let chosen = s.steps_to_frame_end();
    assert(s.frame_ends_after(chosen));
    if chosen < n1 {
        assert(s.after_steps(chosen).ppu.frame == s.ppu.frame);
    } else if n1 < chosen {
        assert(s.after_steps(n1).ppu.frame == s.ppu.frame);
    }
    if n1 < n2 {
        assert(s.after_steps(n1).ppu.frame == s.ppu.frame);
    } else if n2 < n1 {
        assert(s.after_steps(n2).ppu.frame == s.ppu.frame);
    }
}

/// Two consoles in the same state are in the same state after a frame,
/// with the same picture drawn and the same samples pushed.
pub proof fn lemma_a_frame_is_determined(a: CpuState, b: CpuState)
    requires
        a == b,
    ensures
        a.after_step_frame() == b.after_step_frame(),
        a.after_step_frame().ppu.display == b.after_step_frame().ppu.display,
        a.after_step_frame().apu.audio.pushed == b.after_step_frame().apu.audio.pushed,
{
}

/// A byte read as a number with a sign.
pub open spec fn signed(value: u8) -> int {
    if value >= 128 {
        value - 256
    } else {
        value as int
    }
}

proof fn lemma_result_bits(a: u8, m: u8, r: u16)
    by (bit_vector)
    ensures
        ((r & 0xff) == 0) == (r % 256 == 0),
        ((r & 0x80) != 0) == (r % 256 >= 128),
        ((r & 0x100) != 0) == ((r / 256) % 2 == 1),
        r as u8 == r % 256,
        (m as u16) as u8 == m,
        adc_overflow(a, m as u16, r) == ((a < 128) == (m < 128) && (m < 128) != (r % 256 < 128)),
        sbc_overflow(a, m as u16, r) == ((a < 128) != (m < 128) && (a < 128) != (r % 256 < 128)),
{
}

proof fn lemma_flags_are_independent(p: u8, n: bool, z: bool, c: bool, v: bool)
    by (bit_vector)
    ensures
        ({
            let q = with_flag(with_flag(with_flag(with_flag(p, 0x80, n), 0x02, z), 0x01, c), 0x40, v);
            &&& (q & 0x80 != 0) == n
            &&& (q & 0x02 != 0) == z
            &&& (q & 0x01 != 0) == c
            &&& (q & 0x40 != 0) == v
            &&& q & 0x3C == p & 0x3C
        }),
        ({
            let q = with_flag(with_flag(with_flag(p, 0x80, n), 0x02, z), 0x01, c);
            &&& (q & 0x80 != 0) == n
            &&& (q & 0x02 != 0) == z
            &&& (q & 0x01 != 0) == c
            &&& q & 0x7C == p & 0x7C
        }),
{
}

/// What an addition leaves in a register and in the flags.
pub struct Sum {
    /// The low eight bits of the result.
    pub value: u8,
    pub n: bool,
    pub v: bool,
    pub z: bool,
    pub c: bool,
}

/// The sum of two bytes and a carry: the low byte, N its bit 7, Z whether
/// it is zero, C whether the sum does not fit in a byte, V whether the
/// sum of the signed bytes does not fit in a signed byte.
pub open spec fn sum_of(a: u8, m: u8, carry: bool) -> Sum {
    let c: int = if carry {
        1
    } else {
        0
    };
    Sum {
        value: ((a + m + c) % 256) as u8,
        n: (a + m + c) % 256 >= 128,
        v: !(-128 <= signed(a) + signed(m) + c <= 127),
        z: (a + m + c) % 256 == 0,
        c: a + m + c > 255,
    }
}

/// The difference of two bytes less a borrow: the low byte, N its bit 7,
/// Z whether it is zero, C whether nothing had to be borrowed, V whether
/// the difference of the signed bytes does not fit in a signed byte.
pub open spec fn difference_of(a: u8, m: u8, carry: bool) -> Sum {
    let b: int = if carry {
        0
    } else {
        1
    };
    Sum {
        value: ((a - m - b) % 256) as u8,
        n: (a - m - b) % 256 >= 128,
        v: !(-128 <= signed(a) - signed(m) - b <= 127),
        z: (a - m - b) % 256 == 0,
        c: a - m - b >= 0,
    }
}

/// ADC adds: for an operand of one byte the accumulator and the flags N,
/// V, Z and C are those of the sum; D and the other flags play no part.
pub proof fn lemma_adc_adds(s: CpuState, op: crate::operation::Operation, m: u8)
    requires
        s.operand(op) == m,
    ensures
        ({
            let sum = sum_of(s.a, m, s.p & 0x01 != 0);
            let t = s.after_adc(op);
            &&& t.a == sum.value
            &&& (t.p & 0x80 != 0) == sum.n
            &&& (t.p & 0x40 != 0) == sum.v
            &&& (t.p & 0x02 != 0) == sum.z
            &&& (t.p & 0x01 != 0) == sum.c
            &&& t.p & 0x3C == s.after_operand(op).p & 0x3C
        }),
{
    reveal(CpuState::after_adc);
    reveal(CpuState::adc_result);
    let c = carry_of(s.p);
    let result = (s.a as u16).wrapping_add(m as u16).wrapping_add(c);
    assert(result == s.a + m + c);
    lemma_result_bits(s.a, m, result);
    let flags_before = s.after_operand(op).p;
    lemma_flags_are_independent(
        flags_before,
        (result & 0x80) != 0,
        (result & 0xff) == 0,
        (result & 0x100) != 0,
        adc_overflow(s.a, m as u16, result),
    );
}

/// SBC subtracts: for an operand of one byte the accumulator and the
/// flags N, V, Z and C are those of the difference.
pub proof fn lemma_sbc_subtracts(s: CpuState, op: crate::operation::Operation, m: u8)
    requires
        s.operand(op) == m,
    ensures
        ({
            let difference = difference_of(s.a, m, s.p & 0x01 != 0);
            let t = s.after_sbc(op);
            &&& t.a == difference.value
            &&& (t.p & 0x80 != 0) == difference.n
            &&& (t.p & 0x40 != 0) == difference.v
            &&& (t.p & 0x02 != 0) == difference.z
            &&& (t.p & 0x01 != 0) == difference.c
            &&& t.p & 0x3C == s.after_operand(op).p & 0x3C
        }),
{
    reveal(CpuState::after_sbc);
    reveal(CpuState::sbc_result);
    let borrow = (1 - carry_of(s.p)) as u16;
    let result = (s.a as u16).wrapping_sub(m as u16).wrapping_sub(borrow);
    assert(result == (s.a - m - borrow) % 65536);
    lemma_result_bits(s.a, m, result);
    let flags_before = s.after_operand(op).p;
    lemma_flags_are_independent(
        flags_before,
        (result & 0x80) != 0,
        (result & 0xff) == 0,
        s.a as u16 >= (m as u16).wrapping_add(borrow),
        sbc_overflow(s.a, m as u16, result),
    );
}

/// A comparison subtracts without keeping the difference: Z tells whether
/// the register equals the operand, C whether it is not below it, N is bit
/// 7 of the difference.
pub proof fn lemma_compare_orders(s: CpuState, op: crate::operation::Operation, m: u8)
    requires
        s.operand(op) == m,
    ensures
        ({
            let r = s.compared_register(op.instruction_type);
            let t = s.after_compare(op);
            &&& (t.p & 0x02 != 0) == (r == m)
            &&& (t.p & 0x01 != 0) == (r >= m)
            &&& (t.p & 0x80 != 0) == ((r - m) % 256 >= 128)
            &&& t.p & 0x7C == s.after_operand(op).p & 0x7C
            &&& t.a == s.after_operand(op).a
        }),
{
    reveal(CpuState::after_compare);
    let r = s.compared_register(op.instruction_type);
    let result = (r as u16).wrapping_sub(m as u16);
    assert(result == (r - m) % 65536);
    lemma_result_bits(r, m, result);
    let flags_before = s.after_operand(op).p;
    lemma_flags_are_independent(flags_before, (result & 0x80) != 0, (result & 0xff) == 0, r as u16 >= m as u16, false);
}

proof fn lemma_pushed_copy_bits(p: u8)
    by (bit_vector)
    ensures
        (p | 0x20) | 0x10 == p | 0x30,
{
}

/// The instruction PHP leaves the flags with bits 5 and 4 set, writes that
/// byte to the top of the stack and lowers the stack pointer by one;
/// nothing else changes.
pub proof fn lemma_php_pushes_the_flags(s: CpuState, op: Operation)
    requires
        s.wf(),
        op.instruction_type == InstructionTypes::PHP,
    ensures
        s.after_operate(op) == (CpuState {
            p: s.p | 0x30,
            ram: s.ram.update(0x100 + s.sp, s.p | 0x30),
            sp: s.sp.wrapping_sub(1),
            ..s
        }),
{
    reveal(CpuState::after_operate);
    reveal(CpuState::after_php);
    lemma_pushed_copy_bits(s.p);
    lemma_push_writes_page_one(CpuState { p: (s.p | 0x20) | 0x10, ..s }, (s.p | 0x20) | 0x10);
}

/// A branch reads the byte behind its operation code as a signed distance
/// from the instruction that follows. Not taken, it costs nothing more;
/// taken, it moves the program counter by the distance and costs one
/// cycle, or two where the target lies in another page.
pub proof fn lemma_branch_moves_and_costs(s: CpuState, op: Operation, flag: bool)
    requires
        op.addressing_mode == AddressingModes::Relative,
    ensures
        ({
            let next = s.pc.wrapping_add(1);
            let distance = sign_extended(s.read_value(s.pc) as u16);
            let t = s.after_branch(op, flag);
            &&& !flag ==> t.pc == next && t.stall_cycles == s.stall_cycles
            &&& flag ==> t.pc == next.wrapping_add(distance) && t.stall_cycles
                == s.stall_cycles.saturating_add(
                if page_crossed(next, t.pc) {
                    2
                } else {
                    1
                },
            )
        }),
{
    reveal(CpuState::after_branch);
    reveal(CpuState::after_operand);
    reveal(CpuState::operand);
    reveal(CpuState::after_operand_address);
    reveal(CpuState::operand_address);
    reveal(CpuState::operand_crosses_page);
    reveal(CpuState::after_load);
    reveal(CpuState::read_value);
}

/// A jump through a pointer reads the pointer behind the operation code
/// and passes it; where the pointer ends in 0xFF, the high byte of the
/// target comes from the start of the pointer's page.
pub proof fn lemma_indirect_jump_address(s: CpuState, op: Operation)
    requires
        op.addressing_mode == AddressingModes::Indirect,
    ensures
        ({
            let pointer = s.read_2bytes(s.pc);
            let read = CpuState { pc: s.pc.wrapping_add(2), ..s.after_load_2bytes(s.pc) };
            &&& s.after_operand_address(op).pc == s.pc.wrapping_add(2)
            &&& s.operand_address(op) == read.read_2bytes_in_page(pointer)
            &&& pointer & 0xff == 0xff ==> s.operand_address(op) == ((read.after_load(
                pointer,
            ).read_value(pointer & 0xff00) as u16) << 8u8) | read.read_value(pointer) as u16
        }),
{
    reveal(CpuState::operand_address);
    reveal(CpuState::after_operand_address);
    reveal(CpuState::after_load_2bytes_in_page);
    reveal(CpuState::after_load_2bytes);
    reveal(CpuState::after_load);
    let pointer = s.read_2bytes(s.pc);
    let read = CpuState { pc: s.pc.wrapping_add(2), ..s.after_load_2bytes(s.pc) };
    if pointer & 0xff == 0xff {
        lemma_indirect_jump_reads_high_byte_in_page(read, pointer);
    }
}

} // verus!
