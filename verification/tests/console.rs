use nes_rust::audio::Sample;
use nes_rust::button::Button;
use nes_rust::cpu::Cpu;
use nes_rust::cpu_state::Interrupts;
use nes_rust::default_audio::DefaultAudio;
use nes_rust::default_display::DefaultDisplay;
use nes_rust::default_input::DefaultInput;
use nes_rust::rom::Rom;
use nes_rust::Nes;

type Console = Nes<DefaultInput, DefaultDisplay, DefaultAudio>;

/// An image for mapper 0 with one program bank, filled with NOP but for
/// `code`, and the three vectors.
fn image(code: &[(u16, &[u8])], nmi: u16, reset: u16, irq: u16) -> Vec<u8> {
    let mut prg = vec![0xEAu8; 0x4000];
    for (address, bytes) in code {
        let offset = (*address as usize) & 0x3FFF;
        prg[offset..offset + bytes.len()].copy_from_slice(bytes);
    }
    for (offset, vector) in [(0x3FFA, nmi), (0x3FFC, reset), (0x3FFE, irq)] {
        prg[offset] = vector as u8;
        prg[offset + 1] = (vector >> 8) as u8;
    }
    let mut data = vec![0x4e, 0x45, 0x53, 0x1a, 1, 0, 0, 0, 0, 0, 0, 0, 0, 0, 0, 0];
    data.extend(prg);
    data
}

fn console() -> Console {
    Nes::new(DefaultInput::new(), DefaultDisplay::new(), DefaultAudio::new())
}

/// A console that has booted a program standing at 0x8000.
fn booted(program: &[u8]) -> Console {
    booted_at(&[(0x8000, program)], 0x9000, 0x8000, 0x9800)
}

fn booted_at(code: &[(u16, &[u8])], nmi: u16, reset: u16, irq: u16) -> Console {
    let mut nes = console();
    assert!(nes.set_rom(Rom::new(image(code, nmi, reset, irq))));
    nes.bootup();
    nes
}

fn dots(nes: &Console) -> u64 {
    let ppu = nes.get_cpu().get_ppu();
    ppu.frame() as u64 * 89342 + ppu.scanline() as u64 * 341 + ppu.cycle() as u64
}

fn steps(nes: &mut Console, n: usize) {
    for _ in 0..n {
        nes.step();
    }
}

#[test]
fn a_console_refuses_a_cartridge_that_is_not_valid() {
    let mut nes = console();
    assert!(!nes.is_power_on());
    assert!(!nes.set_rom(Rom::new(vec![0; 64])));
    nes.bootup();
    assert!(!nes.is_power_on());
    let mut unknown = image(&[], 0, 0x8000, 0);
    unknown[6] = 0x70;
    assert!(!nes.set_rom(Rom::new(unknown)));
    nes.bootup();
    assert!(!nes.is_power_on());
    assert!(nes.set_rom(Rom::new(image(&[], 0, 0x8000, 0))));
    nes.bootup();
    assert!(nes.is_power_on());
}

#[test]
fn bootup_sets_the_registers_and_takes_the_reset_vector() {
    let nes = booted_at(&[], 0, 0xC123, 0);
    let cpu = nes.get_cpu();
    assert_eq!(0xC123, cpu.pc());
    assert_eq!(0xFD, cpu.sp());
    assert_eq!(0x34, cpu.p());
    assert_eq!((0, 0, 0), (cpu.a(), cpu.x(), cpu.y()));
    assert_eq!(0, dots(&nes));
}

#[test]
fn reset_lowers_the_stack_pointer_by_three_and_sets_i() {
    let mut nes = booted(&[0x58, 0xA2, 0x01, 0x9A]);
    steps(&mut nes, 3);
    assert_eq!(0x30, nes.get_cpu().p() & 0x34);
    assert_eq!(0x01, nes.get_cpu().sp());
    nes.reset();
    assert_eq!(0xFE, nes.get_cpu().sp());
    assert_eq!(0x04, nes.get_cpu().p() & 0x04);
    assert_eq!(0x8000, nes.get_cpu().pc());
    assert_eq!(0, dots(&nes));
}

#[test]
fn a_program_writes_cartridge_memory() {
    let mut nes = booted(
        &[
            0xA9, 0x42, 0x8D, 0x00, 0x60, 0xA9, 0x43, 0x8D, 0x01, 0x60, 0xA9, 0x44, 0x8D, 0x02, 0x60,
            0x4C, 0x0F, 0x80,
        ],
    );
    nes.step_frame();
    assert_eq!(0x42, nes.load(0x6000));
    assert_eq!(0x43, nes.load(0x6001));
    assert_eq!(0x44, nes.load(0x6002));
    assert_eq!(0x800F, nes.get_cpu().pc());
}

#[test]
fn step_frame_stops_where_the_frame_number_changes() {
    let mut nes = booted(&[0x4C, 0x00, 0x80]);
    nes.step_frame();
    assert_eq!(1, nes.get_cpu().get_ppu().frame());
    // a jump takes 3 cycles, so 9 dots: the step that ends the frame
    // overshoots by less than that
    assert!(dots(&nes) - 89342 < 9);
    nes.step_frame();
    assert_eq!(2, nes.get_cpu().get_ppu().frame());
    assert!(dots(&nes) - 2 * 89342 < 9);
}

#[test]
fn the_vertical_blank_interrupt_runs_its_handler_once_a_frame() {
    let mut nes = booted_at(
        &[(0x8000, &[0xA9, 0x80, 0x8D, 0x00, 0x20, 0x4C, 0x05, 0x80]), (0x8010, &[0xE6, 0x10, 0x40])],
        0x8010,
        0x8000,
        0x8005,
    );
    // the flag is set at power-on, so enabling the interrupt raises it at once
    steps(&mut nes, 3);
    assert_eq!(1, nes.load(0x0010));
    nes.step_frame();
    assert_eq!(2, nes.load(0x0010));
    nes.step_frame();
    assert_eq!(3, nes.load(0x0010));
}

#[test]
fn an_indirect_jump_takes_its_high_byte_from_the_same_page() {
    let mut nes = booted_at(
        &[(0x8000, &[0x6C, 0xFF, 0x80]), (0x80FF, &[0x34, 0x99])],
        0,
        0x8000,
        0,
    );
    nes.step();
    assert_eq!(0x6C34, nes.get_cpu().pc());
    assert_eq!(15, dots(&nes));
    let mut plain = booted_at(
        &[(0x8000, &[0x6C, 0xFE, 0x80]), (0x80FE, &[0x34, 0x99])],
        0,
        0x8000,
        0,
    );
    plain.step();
    assert_eq!(0x9934, plain.get_cpu().pc());
}

#[test]
fn a_branch_costs_one_cycle_when_taken_and_one_more_across_a_page() {
    let mut nes = booted_at(
        &[
            (0x80FB, &[0x18, 0x90, 0x02]),
            (0x8100, &[0x90, 0x02]),
            (0x8104, &[0xB0, 0x02, 0x90, 0xFC]),
        ],
        0,
        0x80FB,
        0,
    );
    nes.step();
    assert_eq!(6, dots(&nes));
    nes.step();
    assert_eq!(0x8100, nes.get_cpu().pc());
    assert_eq!(6 + 12, dots(&nes));
    nes.step();
    assert_eq!(0x8104, nes.get_cpu().pc());
    assert_eq!(6 + 12 + 9, dots(&nes));
    nes.step();
    assert_eq!(0x8106, nes.get_cpu().pc());
    assert_eq!(6 + 12 + 9 + 6, dots(&nes));
    // backwards within the page
    nes.step();
    assert_eq!(0x8104, nes.get_cpu().pc());
    assert_eq!(6 + 12 + 9 + 6 + 9, dots(&nes));
}

#[test]
fn an_indexed_read_across_a_page_costs_one_cycle() {
    let mut nes = booted(
        &[
            0xA2, 0x01, 0xBD, 0xFF, 0x80, 0xBD, 0xFE, 0x80, 0x9D, 0xFF, 0x00, 0xA0, 0x01, 0xB1, 0x20,
            0x71, 0x20,
        ],
    );
    nes.store(0x0020, 0xFF);
    nes.store(0x0021, 0x02);
    nes.step();
    let start = dots(&nes);
    nes.step();
    assert_eq!(start + 15, dots(&nes));
    nes.step();
    assert_eq!(start + 15 + 12, dots(&nes));
    // a write pays no penalty
    nes.step();
    assert_eq!(start + 15 + 12 + 15, dots(&nes));
    nes.step();
    let start = dots(&nes);
    nes.step();
    assert_eq!(start + 18, dots(&nes));
    nes.step();
    assert_eq!(start + 18 + 18, dots(&nes));
}

#[test]
fn pushed_flags_have_bit_5_set() {
    let mut nes = booted(&[0xA9, 0x00, 0x48, 0x28, 0x08]);
    steps(&mut nes, 3);
    assert_eq!(0x00, nes.get_cpu().p());
    nes.step();
    assert_eq!(0x30, nes.load(0x01FD));
    assert_eq!(0xFC, nes.get_cpu().sp());
}

#[test]
fn a_break_pushes_the_return_address_and_the_flags_and_takes_the_vector() {
    let mut nes = booted_at(&[(0x8000, &[0xA9, 0x00, 0x48, 0x28, 0x00])], 0x9000, 0x8000, 0x9800);
    steps(&mut nes, 4);
    assert_eq!(0x9800, nes.get_cpu().pc());
    assert_eq!(0xFA, nes.get_cpu().sp());
    assert_eq!(0x80, nes.load(0x01FD));
    assert_eq!(0x06, nes.load(0x01FC));
    assert_eq!(0x30, nes.load(0x01FB));
    assert_eq!(0x34, nes.get_cpu().p());
}

#[test]
fn a_subroutine_returns_behind_its_call() {
    let mut nes = booted_at(
        &[(0x8000, &[0x20, 0x10, 0x80, 0xA9, 0x77]), (0x8010, &[0xA2, 0x01, 0x60])],
        0,
        0x8000,
        0,
    );
    nes.step();
    assert_eq!(0x8010, nes.get_cpu().pc());
    assert_eq!(0xFB, nes.get_cpu().sp());
    assert_eq!(0x80, nes.load(0x01FD));
    assert_eq!(0x02, nes.load(0x01FC));
    steps(&mut nes, 2);
    assert_eq!(0x8003, nes.get_cpu().pc());
    assert_eq!(0xFD, nes.get_cpu().sp());
    nes.step();
    assert_eq!(0x77, nes.get_cpu().a());
}

fn run_program(program: &[u8], n: usize) -> (u8, u8, u8, u8) {
    let mut nes = booted(program);
    steps(&mut nes, n);
    let cpu = nes.get_cpu();
    (cpu.a(), cpu.x(), cpu.y(), cpu.p())
}

#[test]
fn addition_sets_carry_overflow_negative_and_zero() {
    assert_eq!((0xA0, 0, 0, 0xF4), run_program(&[0xA9, 0x50, 0x69, 0x50], 2));
    assert_eq!((0x00, 0, 0, 0x37), run_program(&[0xA9, 0xFF, 0x69, 0x01], 2));
    // the carry comes in
    assert_eq!((0x12, 0, 0, 0x34), run_program(&[0x38, 0xA9, 0x10, 0x69, 0x01], 3));
    // the decimal flag changes nothing
    assert_eq!((0x0A, 0, 0, 0x3C), run_program(&[0xF8, 0xA9, 0x09, 0x69, 0x01], 3));
}

#[test]
fn subtraction_borrows_where_the_carry_is_clear() {
    assert_eq!((0x40, 0, 0, 0x35), run_program(&[0x38, 0xA9, 0x50, 0xE9, 0x10], 3));
    assert_eq!((0x60, 0, 0, 0x34), run_program(&[0x38, 0xA9, 0x50, 0xE9, 0xF0], 3));
    assert_eq!((0x3F, 0, 0, 0x35), run_program(&[0x18, 0xA9, 0x50, 0xE9, 0x10], 3));
    // 0x50 - 0xB0 overflows into the negative
    assert_eq!((0xA0, 0, 0, 0xF4), run_program(&[0x38, 0xA9, 0x50, 0xE9, 0xB0], 3));
}

#[test]
fn a_comparison_sets_carry_where_the_register_is_not_below() {
    assert_eq!((0x10, 0, 0, 0x37), run_program(&[0xA9, 0x10, 0xC9, 0x10], 2));
    assert_eq!((0x10, 0, 0, 0xB4), run_program(&[0xA9, 0x10, 0xC9, 0x20], 2));
    assert_eq!((0x00, 0x20, 0, 0x35), run_program(&[0xA2, 0x20, 0xE0, 0x10], 2));
    assert_eq!((0x00, 0, 0x80, 0x35), run_program(&[0xA0, 0x80, 0xC0, 0x7F], 2));
}

#[test]
fn shifts_and_rotations_move_through_the_carry() {
    assert_eq!((0x02, 0, 0, 0x35), run_program(&[0xA9, 0x81, 0x0A], 2));
    assert_eq!((0x40, 0, 0, 0x35), run_program(&[0xA9, 0x81, 0x4A], 2));
    assert_eq!((0x80, 0, 0, 0xB5), run_program(&[0x38, 0xA9, 0x01, 0x6A], 3));
    assert_eq!((0x03, 0, 0, 0x35), run_program(&[0x38, 0xA9, 0x81, 0x2A], 3));
    assert_eq!((0x00, 0, 0, 0x36), run_program(&[0xA9, 0x00, 0x6A], 2));
}

#[test]
fn counting_and_transfers_set_negative_and_zero() {
    assert_eq!((0, 0x00, 0, 0x36), run_program(&[0xA2, 0xFF, 0xE8], 2));
    assert_eq!((0, 0, 0xFF, 0xB4), run_program(&[0x88], 1));
    assert_eq!((0x80, 0x80, 0, 0xB4), run_program(&[0xA9, 0x80, 0xAA], 2));
    assert_eq!((0, 0xFD, 0, 0xB4), run_program(&[0xBA], 1));
    // TXS sets no flag
    assert_eq!((0, 0x00, 0, 0x36), run_program(&[0xA2, 0x00, 0x9A], 2));
}

#[test]
fn logic_works_on_the_accumulator() {
    assert_eq!((0x0C, 0, 0, 0x34), run_program(&[0xA9, 0x3C, 0x29, 0x0F], 2));
    assert_eq!((0xF3, 0, 0, 0xB4), run_program(&[0xA9, 0x33, 0x09, 0xC0], 2));
    assert_eq!((0x00, 0, 0, 0x36), run_program(&[0xA9, 0x5A, 0x49, 0x5A], 2));
}

#[test]
fn bit_takes_n_and_v_from_memory() {
    let mut nes = booted(&[0xA9, 0x01, 0x24, 0x40]);
    nes.store(0x0040, 0xC0);
    steps(&mut nes, 2);
    assert_eq!(0xF6, nes.get_cpu().p());
    let mut nes = booted(&[0xA9, 0x01, 0x24, 0x40]);
    nes.store(0x0040, 0x01);
    steps(&mut nes, 2);
    assert_eq!(0x34, nes.get_cpu().p());
}

#[test]
fn memory_is_incremented_decremented_and_shifted_in_place() {
    let mut nes = booted(&[0xE6, 0x40, 0xC6, 0x41, 0x06, 0x42, 0x46, 0x43, 0x26, 0x44, 0x66, 0x45]);
    for (i, value) in [0xFFu8, 0x00, 0x81, 0x01, 0x80, 0x02].iter().enumerate() {
        nes.store(0x0040 + i as u16, *value);
    }
    nes.step();
    assert_eq!((0x00, 0x36), (nes.load(0x0040), nes.get_cpu().p()));
    nes.step();
    assert_eq!((0xFF, 0xB4), (nes.load(0x0041), nes.get_cpu().p()));
    nes.step();
    assert_eq!((0x02, 0x35), (nes.load(0x0042), nes.get_cpu().p()));
    nes.step();
    assert_eq!((0x00, 0x37), (nes.load(0x0043), nes.get_cpu().p()));
    nes.step();
    assert_eq!((0x01, 0x35), (nes.load(0x0044), nes.get_cpu().p()));
    nes.step();
    assert_eq!((0x81, 0xB4), (nes.load(0x0045), nes.get_cpu().p()));
}

#[test]
fn indexed_zero_page_addresses_stay_in_page_zero() {
    let mut nes = booted(&[0xA2, 0xFF, 0xA9, 0x5A, 0x95, 0x02, 0xA0, 0x03, 0xB6, 0xFE]);
    steps(&mut nes, 3);
    assert_eq!(0x5A, nes.load(0x0001));
    assert_eq!(0x00, nes.load(0x0101));
    steps(&mut nes, 2);
    assert_eq!(0x5A, nes.get_cpu().x());
}

#[test]
fn indirect_pointers_wrap_within_page_zero() {
    let mut nes = booted(&[0xA0, 0x01, 0xB1, 0xFF, 0xA2, 0x01, 0xA1, 0xFE]);
    nes.store(0x00FF, 0x34);
    nes.store(0x0000, 0x02);
    nes.store(0x0100, 0x07);
    nes.store(0x0235, 0x5A);
    nes.store(0x0234, 0x6B);
    steps(&mut nes, 2);
    assert_eq!(0x5A, nes.get_cpu().a());
    steps(&mut nes, 2);
    assert_eq!(0x6B, nes.get_cpu().a());
}

#[test]
fn an_operation_code_that_is_no_instruction_is_counted_and_costs_one_cycle() {
    let mut nes = booted(&[0x02, 0xFF, 0xEA]);
    assert_eq!(0, nes.get_cpu().invalid_operations());
    nes.step();
    assert_eq!(1, nes.get_cpu().invalid_operations());
    assert_eq!(0x8001, nes.get_cpu().pc());
    assert_eq!(3, dots(&nes));
    nes.step();
    assert_eq!(2, nes.get_cpu().invalid_operations());
    nes.step();
    assert_eq!(2, nes.get_cpu().invalid_operations());
    assert_eq!(3 + 3 + 6, dots(&nes));
    assert_eq!(0x34, nes.get_cpu().p());
}

#[test]
fn the_first_2_kib_repeat_up_to_0x1fff() {
    let mut nes = booted(&[]);
    nes.store(0x0005, 0x11);
    assert_eq!(0x11, nes.load(0x0805));
    assert_eq!(0x11, nes.load(0x1805));
    nes.store(0x1FFF, 0x22);
    assert_eq!(0x22, nes.load(0x07FF));
    // cartridge memory does not repeat
    nes.store(0x4020, 0x33);
    nes.store(0x7FFF, 0x44);
    assert_eq!(0x33, nes.load(0x4020));
    assert_eq!(0x44, nes.load(0x7FFF));
    assert_eq!(0x00, nes.load(0x6020));
    // a write to a cartridge without registers changes nothing
    nes.store(0x8000, 0x55);
    assert_eq!(0xEA, nes.load(0x8000));
    assert_eq!(0xEA, nes.load(0xC000));
}

#[test]
fn the_registers_of_the_picture_unit_repeat_every_8_bytes() {
    let mut nes = booted(&[]);
    nes.store(0x3FFE, 0x21);
    nes.store(0x2006, 0x07);
    nes.store(0x2007, 0x99);
    nes.store(0x3F06, 0x21);
    nes.store(0x2AAE, 0x07);
    nes.load(0x3FFF);
    assert_eq!(0x99, nes.load(0x2007));
    // the status register was set at power-on, and a read clears the flag
    assert_eq!(0x80, nes.load(0x3FFA) & 0x80);
    assert_eq!(0x00, nes.load(0x2002) & 0x80);
}

#[test]
fn a_transfer_of_sprite_memory_copies_a_page_and_stalls_for_514_cycles() {
    let mut nes = booted(&[]);
    for i in 0..256u16 {
        nes.store(0x0200 + i, (i as u8) ^ 0x5A);
    }
    nes.store(0x4014, 0x02);
    for i in [0u8, 1, 0x37, 0xFF] {
        nes.store(0x2003, i);
        assert_eq!(i ^ 0x5A, nes.load(0x2004));
    }
    nes.step();
    assert_eq!((514 + 2) * 3, dots(&nes));
    nes.step();
    assert_eq!((514 + 2 + 2) * 3, dots(&nes));
}

#[test]
fn a_transfer_starts_at_the_sprite_address() {
    let mut nes = booted(&[]);
    for i in 0..256u16 {
        nes.store(0x0300 + i, i as u8);
    }
    nes.store(0x2003, 0x10);
    nes.store(0x4014, 0x03);
    nes.store(0x2003, 0x10);
    assert_eq!(0x00, nes.load(0x2004));
    nes.store(0x2003, 0x0F);
    assert_eq!(0xFF, nes.load(0x2004));
}

fn read_eight(nes: &mut Console, address: u16) -> Vec<u8> {
    nes.store(0x4016, 1);
    nes.store(0x4016, 0);
    let mut reads = Vec::new();
    for _ in 0..8 {
        reads.push(nes.load(address));
    }
    reads
}

#[test]
fn button_events_reach_the_first_controller_in_order() {
    let mut nes = booted(&[0x4C, 0x00, 0x80]);
    nes.press_button(Button::Joypad1A);
    nes.release_button(Button::Joypad1A);
    nes.step_frame();
    assert_eq!(vec![0; 8], read_eight(&mut nes, 0x4016));
    nes.release_button(Button::Joypad1A);
    nes.press_button(Button::Joypad1A);
    nes.step_frame();
    assert_eq!(vec![1, 0, 0, 0, 0, 0, 0, 0], read_eight(&mut nes, 0x4016));
    // further reads return 1
    for _ in 0..20 {
        assert_eq!(1, nes.load(0x4016));
    }
}

#[test]
fn button_events_are_sorted_to_the_two_controllers() {
    let mut nes = booted(&[0x4C, 0x00, 0x80]);
    nes.press_button(Button::Start);
    nes.press_button(Button::Select);
    nes.press_button(Button::Joypad1Left);
    nes.press_button(Button::Joypad2B);
    nes.press_button(Button::Joypad2Right);
    nes.press_button(Button::Joypad2Up);
    nes.release_button(Button::Joypad2Up);
    nes.step_frame();
    assert_eq!(vec![0, 0, 1, 1, 0, 0, 1, 0], read_eight(&mut nes, 0x4016));
    assert_eq!(vec![0, 1, 0, 0, 0, 0, 0, 1], read_eight(&mut nes, 0x4017));
}

#[test]
fn the_power_and_reset_buttons_act_on_the_next_frame() {
    let mut nes = booted(&[0xA2, 0x40, 0x9A, 0x4C, 0x03, 0x80]);
    nes.step_frame();
    assert_eq!(0x40, nes.get_cpu().sp());
    nes.press_button(Button::Reset);
    nes.step_frame();
    // the frame after a reset starts from dot 0 with the program restarted
    assert_eq!(1, nes.get_cpu().get_ppu().frame());
    assert_eq!(0x40, nes.get_cpu().sp());
    assert!(nes.is_power_on());
    nes.press_button(Button::Poweroff);
    nes.step_frame();
    assert!(!nes.is_power_on());
}

fn picture(nes: &Console) -> Vec<u8> {
    let mut pixels = vec![0u8; 245760];
    nes.copy_pixels(&mut pixels);
    pixels
}

fn samples(nes: &mut Console) -> Vec<(u8, u8, u8, u8, u8)> {
    let mut out = vec![Sample { pulse1: 0, pulse2: 0, triangle: 0, noise: 0, dmc: 0 }; 4096];
    nes.copy_sample_buffer(&mut out);
    out.iter().map(|s| (s.pulse1, s.pulse2, s.triangle, s.noise, s.dmc)).collect()
}

/// A program that shows a backdrop, sounds the triangle and spins.
fn demo() -> Vec<u8> {
    vec![
        0xA9, 0x3F, 0x8D, 0x06, 0x20, 0xA9, 0x00, 0x8D, 0x06, 0x20, 0xA9, 0x16, 0x8D, 0x07, 0x20,
        0xA9, 0x04, 0x8D, 0x15, 0x40, 0xA9, 0x7F, 0x8D, 0x08, 0x40, 0xA9, 0x40, 0x8D, 0x0A, 0x40,
        0xA9, 0x08, 0x8D, 0x0B, 0x40, 0xA9, 0x80, 0x8D, 0x17, 0x40, 0x4C, 0x28, 0x80,
    ]
}

#[test]
fn two_runs_of_one_program_give_the_same_picture_and_sound() {
    let mut first = booted(&demo());
    let mut second = booted(&demo());
    for _ in 0..2 {
        first.step_frame();
        second.step_frame();
    }
    assert_eq!(dots(&first), dots(&second));
    let shown = picture(&first);
    assert!(shown == picture(&second));
    // colour 0x16 is 00 2b db
    assert_eq!([0xdb, 0x2b, 0x00, 255], shown[4 * (256 * 200 + 9)..4 * (256 * 200 + 9) + 4]);
    let heard = samples(&mut first);
    assert!(heard == samples(&mut second));
    assert!(heard.iter().any(|s| s.2 != 0));
    assert!(heard.iter().all(|s| s.0 == 0 && s.2 <= 15));
}

#[test]
fn the_frame_interrupt_of_the_audio_unit_reaches_the_handler() {
    let mut nes = booted_at(
        &[(0x8000, &[0x58, 0x4C, 0x01, 0x80]), (0x8020, &[0xE6, 0x11, 0xAD, 0x15, 0x40, 0x40])],
        0x8030,
        0x8000,
        0x8020,
    );
    nes.step_frame();
    assert_eq!(0, nes.load(0x0011));
    nes.step_frame();
    assert_eq!(1, nes.load(0x0011));
    // with I set the request is not served
    let mut masked = booted_at(
        &[(0x8000, &[0x4C, 0x00, 0x80]), (0x8020, &[0xE6, 0x11, 0xAD, 0x15, 0x40, 0x40])],
        0x8030,
        0x8000,
        0x8020,
    );
    masked.step_frame();
    masked.step_frame();
    assert_eq!(0, masked.load(0x0011));
}

#[test]
fn a_dump_shows_the_registers_and_the_next_instruction() {
    let mut nes = booted(&[0xA9, 0x42, 0x8D, 0x00, 0x60, 0x0A, 0xEA, 0xB5, 0x10, 0x6C, 0x34, 0x12]);
    assert_eq!(
        "p:0x34(--AB-I--) pc:0x8000(0xa9) sp:0xfd a:0x00 x:0x00 y:0x00 lda #0x42 immediate",
        nes.dump()
    );
    nes.step();
    assert_eq!(
        "p:0x34(--AB-I--) pc:0x8002(0x8d) sp:0xfd a:0x42 x:0x00 y:0x00 sta 0x6000 (0x00) absolute",
        nes.dump()
    );
    nes.step();
    assert_eq!(
        "p:0x34(--AB-I--) pc:0x8005(0x0a) sp:0xfd a:0x42 x:0x00 y:0x00 asl A0x42 accumulator",
        nes.dump()
    );
    nes.step();
    assert_eq!("p:0xb4(N-AB-I--) pc:0x8006(0xea) sp:0xfd a:0x84 x:0x00 y:0x00 nop ", nes.dump());
    nes.step();
    nes.store(0x0010, 0x5A);
    assert_eq!(
        "p:0xb4(N-AB-I--) pc:0x8007(0xb5) sp:0xfd a:0x84 x:0x00 y:0x00 lda 0x10,X (0x5a) indexed_zero_page_x",
        nes.dump()
    );
    nes.step();
    nes.store(0x1234, 0x00);
    nes.store(0x1235, 0x02);
    nes.store(0x0200, 0x77);
    assert_eq!(
        "p:0x34(--AB-I--) pc:0x8009(0x6c) sp:0xfd a:0x5a x:0x00 y:0x00 jmp 0x1234 (0x0200(0x77)) indirect",
        nes.dump()
    );
}

#[test]
fn a_dump_reads_from_the_bus() {
    let mut nes = booted(&[0xAD, 0x02, 0x20]);
    // the status register of the picture unit shows the flag set at power-on
    assert_eq!(
        "p:0x34(--AB-I--) pc:0x8000(0xad) sp:0xfd a:0x00 x:0x00 y:0x00 lda 0x2002 (0x80) absolute",
        nes.dump()
    );
    // the read has cleared it
    assert_eq!(0x00, nes.load(0x2002) & 0x80);
}

#[test]
fn bootup_clears_memory() {
    let mut nes = console();
    assert!(nes.set_rom(Rom::new(image(&[], 0, 0x8000, 0))));
    nes.store(0x0005, 7);
    nes.store(0x6000, 8);
    assert_eq!(7, nes.load(0x0005));
    nes.bootup();
    assert_eq!(0, nes.load(0x0005));
    assert_eq!(0, nes.load(0x6000));
}

#[test]
fn the_program_counter_is_seen_at_the_handler_of_the_vertical_blank_interrupt() {
    let mut nes = booted_at(
        &[(0x8000, &[0xA9, 0x80, 0x8D, 0x00, 0x20, 0x4C, 0x05, 0x80]), (0x8010, &[0x4C, 0x10, 0x80])],
        0x8010,
        0x8000,
        0x8005,
    );
    let mut seen = 0;
    while nes.get_cpu().get_ppu().frame() < 2 {
        nes.step();
        if nes.get_cpu().pc() == 0x8010 {
            seen += 1;
        }
    }
    assert!(seen >= 2);
    // three interrupts have been served: one at once, one in each frame
    assert_eq!(0xFD - 9, nes.get_cpu().sp());
}

#[test]
fn an_interrupt_request_is_served_only_while_i_is_clear() {
    let mut cpu = Cpu::new(DefaultInput::new(), DefaultDisplay::new(), DefaultAudio::new());
    assert!(cpu.set_rom(Rom::new(image(&[(0x8000, &[0x58])], 0x9000, 0x8000, 0x9800))));
    cpu.bootup();
    cpu.interrupt(Interrupts::IRQ);
    assert_eq!((0x8000, 0xFD, 0x34), (cpu.pc(), cpu.sp(), cpu.p()));
    cpu.step();
    assert_eq!((0x8001, 0xFD, 0x30), (cpu.pc(), cpu.sp(), cpu.p()));
    cpu.interrupt(Interrupts::IRQ);
    assert_eq!((0x9800, 0xFA, 0x24), (cpu.pc(), cpu.sp(), cpu.p()));
    assert_eq!(0x80, cpu.load(0x01FD));
    assert_eq!(0x01, cpu.load(0x01FC));
    assert_eq!(0x20, cpu.load(0x01FB));
    // the interrupt that cannot be masked is served with I set
    cpu.interrupt(Interrupts::NMI);
    assert_eq!((0x9000, 0xF7, 0x24), (cpu.pc(), cpu.sp(), cpu.p()));
    assert_eq!(0x98, cpu.load(0x01FA));
    assert_eq!(0x00, cpu.load(0x01F9));
    assert_eq!(0x24, cpu.load(0x01F8));
    // a reset pushes nothing
    cpu.interrupt(Interrupts::RESET);
    assert_eq!((0x8000, 0xF7, 0x24), (cpu.pc(), cpu.sp(), cpu.p()));
}
