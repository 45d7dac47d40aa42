use nes_rust::cpu::Cpu;
use nes_rust::default_audio::DefaultAudio;
use nes_rust::default_display::DefaultDisplay;
use nes_rust::default_input::DefaultInput;
use nes_rust::operation::operation;
use nes_rust::rom::Rom;

type Processor = Cpu<DefaultInput, DefaultDisplay, DefaultAudio>;

/// A processor that has booted a cartridge of mapper 0 whose program bank
/// starts with `program` and is filled with NOP; it stands at 0x8000.
fn processor(program: &[u8]) -> Processor {
    let mut prg = vec![0xEAu8; 0x4000];
    prg[..program.len()].copy_from_slice(program);
    prg[0x3FFC] = 0x00;
    prg[0x3FFD] = 0x80;
    let mut data = vec![0x4e, 0x45, 0x53, 0x1a, 1, 0, 0, 0, 0, 0, 0, 0, 0, 0, 0, 0];
    data.extend(prg);
    let mut cpu = Cpu::new(DefaultInput::new(), DefaultDisplay::new(), DefaultAudio::new());
    assert!(cpu.set_rom(Rom::new(data)));
    cpu.bootup();
    assert_eq!(0x8000, cpu.pc());
    cpu
}

#[test]
fn php_writes_the_flags_with_bits_5_and_4_to_the_stack() {
    let mut cpu = processor(&[]);
    // pull 0x81 into the flags first
    cpu.store(0x01FE, 0x81);
    cpu.operate(&operation(0x28));
    assert_eq!(0xFE, cpu.sp());
    let flags = cpu.p();
    assert_eq!(0x81, flags & 0xCF);
    let (pc, a, x, y) = (cpu.pc(), cpu.a(), cpu.x(), cpu.y());
    cpu.store(0x01FE, 0x00);
    cpu.operate(&operation(0x08));
    assert_eq!(0xB1, cpu.load(0x01FE));
    assert_eq!(flags | 0x30, cpu.load(0x01FE));
    assert_eq!(0xFD, cpu.sp());
    assert_eq!((pc, a, x, y), (cpu.pc(), cpu.a(), cpu.x(), cpu.y()));
}

#[test]
fn php_wraps_the_stack_pointer_below_zero() {
    let mut cpu = processor(&[]);
    // three pulls take the stack pointer from 0xFD to 0x00
    cpu.operate(&operation(0x68));
    cpu.operate(&operation(0x68));
    cpu.operate(&operation(0x68));
    assert_eq!(0x00, cpu.sp());
    let flags = cpu.p();
    cpu.operate(&operation(0x08));
    assert_eq!(0xFF, cpu.sp());
    assert_eq!(flags | 0x30, cpu.load(0x0100));
}

#[test]
fn a_pointer_at_the_end_of_a_page_takes_its_high_byte_from_the_start() {
    let mut cpu = processor(&[0xFF, 0x02, 0x10, 0x02]);
    cpu.store(0x02FF, 0x34);
    cpu.store(0x0200, 0x12);
    cpu.store(0x0300, 0x56);
    assert_eq!(0x1234, cpu.get_address_with_addressing_mode(&operation(0x6C)));
    assert_eq!(0x8002, cpu.pc());
    // a pointer inside the page reads two bytes in a row
    cpu.store(0x0210, 0x78);
    cpu.store(0x0211, 0x9A);
    assert_eq!(0x9A78, cpu.get_address_with_addressing_mode(&operation(0x6C)));
    assert_eq!(0x8004, cpu.pc());
}

#[test]
fn a_branch_that_is_not_taken_passes_its_operand() {
    let mut cpu = processor(&[0x10]);
    cpu.do_branch(&operation(0xD0), false);
    assert_eq!(0x8001, cpu.pc());
}

#[test]
fn a_branch_that_is_taken_adds_the_signed_distance() {
    let mut cpu = processor(&[0x10, 0xEA, 0xFB]);
    cpu.do_branch(&operation(0xD0), true);
    assert_eq!(0x8011, cpu.pc());
    let mut back = processor(&[0xFB]);
    back.do_branch(&operation(0xF0), true);
    assert_eq!(0x7FFC, back.pc());
}

#[test]
fn every_frame_raises_the_frame_counter_by_one() {
    // the delta channel plays at its highest rate and loops, and the
    // program transfers sprite memory over and over
    let mut cpu = processor(
        &[
            0xA9, 0x4F, 0x8D, 0x10, 0x40, // LDA #$4F, STA $4010
            0xA9, 0xFF, 0x8D, 0x13, 0x40, // LDA #$FF, STA $4013
            0xA9, 0x10, 0x8D, 0x15, 0x40, // LDA #$10, STA $4015
            0xA9, 0x02, 0x8D, 0x14, 0x40, // LDA #$02, STA $4014
            0x4C, 0x0F, 0x80, // JMP $800F
        ],
    );
    for frame in 1..=12u32 {
        cpu.step_frame();
        assert_eq!(frame, cpu.get_ppu().frame());
    }
}

#[test]
fn the_flags_are_dumped_as_letters_and_dashes() {
    let mut cpu = processor(&[]);
    cpu.store(0x01FE, 0xC3);
    cpu.operate(&operation(0x28));
    let flags = cpu.p();
    assert_eq!(0xC3, flags & 0xCF);
    let mut letters = String::new();
    for (mask, letter) in
        [(0x80u8, 'N'), (0x40, 'V'), (0x20, 'A'), (0x10, 'B'), (0x08, 'D'), (0x04, 'I'), (0x02, 'Z'), (0x01, 'C')]
    {
        letters.push(if flags & mask != 0 { letter } else { '-' });
    }
    let expected = format!("p:0x{:02x}({}) pc:0x8000(0xea) sp:0xfe a:0x00 x:0x00 y:0x00 nop ", flags, letters);
    assert_eq!(expected, cpu.dump());
    assert!(letters.starts_with("NV"));
    assert!(letters.ends_with("--ZC"));
}
