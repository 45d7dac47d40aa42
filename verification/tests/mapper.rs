use nes_rust::mapper::{Mapper, NRomMapper};

#[test]
fn mapper_initialize() {
    NRomMapper { program_bank_num: 1 };
}

#[test]
fn map_with_program_bank_num_1() {
    let m = NRomMapper { program_bank_num: 1 };
    assert_eq!(0x0000, m.map(0x8000));
    assert_eq!(0x3FFF, m.map(0xBFFF));
    assert_eq!(0x0000, m.map(0xC000));
    assert_eq!(0x3FFF, m.map(0xFFFF));
}

#[test]
fn map_with_program_bank_num_2() {
    let m = NRomMapper { program_bank_num: 2 };
    assert_eq!(0x0000, m.map(0x8000));
    assert_eq!(0x3FFF, m.map(0xBFFF));
    assert_eq!(0x4000, m.map(0xC000));
    assert_eq!(0x7FFF, m.map(0xFFFF));
}

#[test]
fn map_for_chr_rom() {
    let m = NRomMapper { program_bank_num: 1 };
    assert_eq!(0x0000, m.map_for_chr_rom(0x0000));
    assert_eq!(0x1FFF, m.map_for_chr_rom(0x1FFF));
}
