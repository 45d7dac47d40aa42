use nes_rust::mapper::{Mapper, MapperFactory, Mappers};
use nes_rust::rom::{Mirrorings, Rom, RomHeader};

/// An image of `prg` program banks, each filled with its number, and `chr`
/// character banks, each filled with 0x80 plus its number.
fn image(mapper: u8, prg: u8, chr: u8, flags6_low: u8) -> Vec<u8> {
    let mut data = vec![0x4e, 0x45, 0x53, 0x1a, prg, chr, (mapper << 4) | flags6_low, mapper & 0xF0];
    data.extend_from_slice(&[0u8; 8]);
    for bank in 0..prg {
        data.extend(std::iter::repeat(bank).take(0x4000));
    }
    for bank in 0..chr {
        data.extend(std::iter::repeat(0x80 + bank).take(0x2000));
    }
    data
}

#[test]
fn header_fields_come_from_bytes_four_to_seven() {
    let data = vec![0x4e, 0x45, 0x53, 0x1a, 7, 3, 0x41, 0x20, 0, 0, 0, 0, 0, 0, 0, 0];
    let header = RomHeader::new(&data);
    assert!(header.is_nes());
    assert_eq!(7, header.prg_rom_bank_num());
    assert_eq!(3, header.chr_rom_bank_num());
    assert_eq!(0x24, header.mapper_num());
    assert!(header.has_chr_rom());
    assert_eq!(Mirrorings::Vertical, header.mirroring_type());
    assert!(!header.four_screen_mirroring());
    assert_eq!(0x1a, header.magic_number());
    assert_eq!(0x41, header.control_byte1());
    assert_eq!(0x20, header.control_byte2());
    assert_eq!(0x05, header.extract_bits(0xAB, 1, 3));
}

#[test]
fn header_mirroring_follows_bits_three_and_zero() {
    let mut data = vec![0x4e, 0x45, 0x53, 0x1a, 1, 1, 0x00, 0x00, 0, 0, 0, 0, 0, 0, 0, 0];
    assert_eq!(Mirrorings::Horizontal, RomHeader::new(&data).mirroring_type());
    data[6] = 0x01;
    assert_eq!(Mirrorings::Vertical, RomHeader::new(&data).mirroring_type());
    data[6] = 0x08;
    assert_eq!(Mirrorings::FourScreen, RomHeader::new(&data).mirroring_type());
    data[6] = 0x09;
    assert_eq!(Mirrorings::FourScreen, RomHeader::new(&data).mirroring_type());
}

#[test]
fn an_image_shorter_than_a_header_reads_as_zero_padded() {
    let header = RomHeader::new(&vec![0x4e, 0x45, 0x53, 0x1a, 2]);
    assert!(header.is_nes());
    assert_eq!(2, header.prg_rom_bank_num());
    assert_eq!(0, header.chr_rom_bank_num());
    let rom = Rom::new(vec![0x4e, 0x45, 0x53]);
    assert!(!rom.valid());
    assert_eq!(0, rom.load(0x8000));
    assert_eq!(0, rom.load_without_mapping(0));
}

#[test]
fn an_unknown_mapper_makes_the_cartridge_invalid() {
    let rom = Rom::new(image(5, 1, 1, 0));
    assert!(!rom.valid());
    assert_eq!(0, rom.load(0x8000));
    let known = Rom::new(image(4, 1, 1, 0));
    assert!(known.valid());
    let header = RomHeader::new(&image(5, 1, 1, 0));
    assert!(MapperFactory::create(&header).is_none());
    let header = RomHeader::new(&image(3, 1, 1, 0));
    assert!(matches!(MapperFactory::create(&header), Some(Mappers::CNRom(_))));
}

#[test]
fn reads_past_the_end_of_the_image_return_zero() {
    let mut data = image(0, 2, 0, 0);
    data.truncate(16 + 0x4000 + 3);
    let rom = Rom::new(data);
    assert_eq!(0, rom.load(0x8000));
    assert_eq!(1, rom.load(0xC002));
    assert_eq!(0, rom.load(0xC003));
    assert_eq!(0, rom.load(0xFFFF));
    assert_eq!(1, rom.load_without_mapping(0x4000));
    assert_eq!(0, rom.load_without_mapping(0x4003));
}

#[test]
fn nrom_reads_character_banks_behind_the_program_banks() {
    let rom = Rom::new(image(0, 2, 1, 1));
    assert!(rom.valid());
    assert!(rom.has_chr_rom());
    assert_eq!(0, rom.load(0x8000));
    assert_eq!(0, rom.load(0xBFFF));
    assert_eq!(1, rom.load(0xC000));
    assert_eq!(0x80, rom.load(0x0000));
    assert_eq!(0x80, rom.load(0x1FFF));
    assert_eq!(Mirrorings::Vertical, rom.mirroring_type());
}

fn write_serial(rom: &mut Rom, address: u32, value: u8) {
    for bit in 0..5 {
        rom.store(address, (value >> bit) & 1);
    }
}

#[test]
fn mmc1_commits_the_latch_on_the_fifth_write() {
    let mut rom = Rom::new(image(1, 16, 0, 0));
    assert!(rom.valid());
    // at power-on the last bank is fixed at 0xC000 and bank 0 is at 0x8000
    assert_eq!(0, rom.load(0x8000));
    assert_eq!(15, rom.load(0xC000));
    write_serial(&mut rom, 0xE000, 0x0F);
    assert_eq!(15, rom.load(0x8000));
    assert_eq!(15, rom.load(0xC000));
    write_serial(&mut rom, 0xE000, 0x05);
    assert_eq!(5, rom.load(0x8000));
    assert_eq!(5, rom.load(0xBFFF));
    assert_eq!(15, rom.load(0xFFFF));
    // four writes change nothing yet
    for _ in 0..4 {
        rom.store(0xE000, 0);
    }
    assert_eq!(5, rom.load(0x8000));
    rom.store(0xE000, 0);
    assert_eq!(0, rom.load(0x8000));
}

#[test]
fn mmc1_program_modes_and_mirroring_follow_the_control_register() {
    let mut rom = Rom::new(image(1, 16, 0, 0));
    write_serial(&mut rom, 0xE000, 0x07);
    // mode 2: the first bank is fixed at 0x8000, 0xC000 switches
    write_serial(&mut rom, 0x8000, 0x08 | 0x02);
    assert_eq!(Mirrorings::Vertical, rom.mirroring_type());
    assert_eq!(0, rom.load(0x8000));
    assert_eq!(7, rom.load(0xC000));
    // modes 0 and 1: 32 KiB switch, the low bit of the bank is ignored
    write_serial(&mut rom, 0x8000, 0x03);
    assert_eq!(Mirrorings::Horizontal, rom.mirroring_type());
    assert_eq!(6, rom.load(0x8000));
    assert_eq!(7, rom.load(0xC000));
    write_serial(&mut rom, 0x8000, 0x00);
    assert_eq!(Mirrorings::SingleScreen, rom.mirroring_type());
    // a write with bit 7 set drops the latch and fixes the last bank again
    rom.store(0x8000, 1);
    rom.store(0xFFFF, 0x80);
    write_serial(&mut rom, 0xE000, 0x02);
    assert_eq!(2, rom.load(0x8000));
    assert_eq!(15, rom.load(0xC000));
}

#[test]
fn mmc1_switches_character_banks_of_four_kib() {
    let mut data = image(1, 1, 0, 0);
    data[5] = 2;
    for k in 0..4u8 {
        data.extend(std::iter::repeat(0x40 + k).take(0x1000));
    }
    let mut rom = Rom::new(data);
    // control: two banks of 4 KiB, last program bank fixed
    write_serial(&mut rom, 0x8000, 0x1C);
    write_serial(&mut rom, 0xA000, 3);
    write_serial(&mut rom, 0xC000, 1);
    assert_eq!(0x43, rom.load(0x0000));
    assert_eq!(0x43, rom.load(0x0FFF));
    assert_eq!(0x41, rom.load(0x1000));
    // control: one bank of 8 KiB, the low bit of the number is ignored
    write_serial(&mut rom, 0x8000, 0x0C);
    assert_eq!(0x42, rom.load(0x0000));
    assert_eq!(0x43, rom.load(0x1000));
}

#[test]
fn unrom_switches_the_lower_bank_only() {
    let mut rom = Rom::new(image(2, 8, 0, 0));
    assert_eq!(0, rom.load(0x8000));
    assert_eq!(7, rom.load(0xC000));
    rom.store(0x8000, 0xF3);
    assert_eq!(3, rom.load(0x8000));
    assert_eq!(3, rom.load(0xBFFF));
    assert_eq!(7, rom.load(0xFFFF));
}

#[test]
fn cnrom_switches_the_character_bank() {
    let mut rom = Rom::new(image(3, 2, 4, 0));
    assert_eq!(0, rom.load(0x8000));
    assert_eq!(1, rom.load(0xC000));
    assert_eq!(0x80, rom.load(0x0000));
    rom.store(0x8000, 0xF2);
    assert_eq!(0x82, rom.load(0x0000));
    assert_eq!(0x82, rom.load(0x1FFF));
    assert_eq!(1, rom.load(0xC000));
}

/// An image for mapper 4 whose 8 KiB program banks and 1 KiB character
/// banks are filled with their numbers.
fn mmc3_image() -> Vec<u8> {
    let mut data = vec![0x4e, 0x45, 0x53, 0x1a, 4, 2, 0x40, 0x00];
    data.extend_from_slice(&[0u8; 8]);
    for bank in 0..8u8 {
        data.extend(std::iter::repeat(bank).take(0x2000));
    }
    for bank in 0..16u8 {
        data.extend(std::iter::repeat(0x80 + bank).take(0x400));
    }
    data
}

#[test]
fn mmc3_maps_program_banks_by_mode() {
    let mut rom = Rom::new(mmc3_image());
    assert!(rom.valid());
    assert_eq!(0, rom.load(0x8000));
    assert_eq!(0, rom.load(0xA000));
    assert_eq!(6, rom.load(0xC000));
    assert_eq!(7, rom.load(0xE000));
    rom.store(0x8000, 6);
    rom.store(0x8001, 3);
    rom.store(0x8000, 7);
    rom.store(0x8001, 0x45);
    assert_eq!(3, rom.load(0x8000));
    assert_eq!(5, rom.load(0xA000));
    // program mode 1 swaps 0x8000 and 0xC000
    rom.store(0x8000, 0x46);
    assert_eq!(6, rom.load(0x8000));
    assert_eq!(3, rom.load(0xC000));
    assert_eq!(7, rom.load(0xFFFF));
    // a bank number past the end wraps
    rom.store(0x8001, 0x0B);
    assert_eq!(3, rom.load(0xC000));
}

#[test]
fn mmc3_maps_character_banks_by_inversion() {
    let mut rom = Rom::new(mmc3_image());
    for (register, bank) in [(0u8, 4u8), (1, 6), (2, 8), (3, 9), (4, 10), (5, 11)] {
        rom.store(0x8000, register);
        rom.store(0x8001, bank);
    }
    assert_eq!(0x84, rom.load(0x0000));
    assert_eq!(0x85, rom.load(0x0400));
    assert_eq!(0x86, rom.load(0x0800));
    assert_eq!(0x87, rom.load(0x0C00));
    assert_eq!(0x88, rom.load(0x1000));
    assert_eq!(0x8B, rom.load(0x1C00));
    rom.store(0x8000, 0x80);
    assert_eq!(0x88, rom.load(0x0000));
    assert_eq!(0x8B, rom.load(0x0C00));
    assert_eq!(0x84, rom.load(0x1000));
    assert_eq!(0x87, rom.load(0x1FFF));
}

#[test]
fn mmc3_mirroring_follows_bit_zero_of_0xa000() {
    let mut rom = Rom::new(mmc3_image());
    assert_eq!(Mirrorings::Vertical, rom.mirroring_type());
    rom.store(0xA000, 1);
    assert_eq!(Mirrorings::Horizontal, rom.mirroring_type());
    rom.store(0xA001, 0);
    assert_eq!(Mirrorings::Horizontal, rom.mirroring_type());
    rom.store(0xA000, 0);
    assert_eq!(Mirrorings::Vertical, rom.mirroring_type());
}

#[test]
fn mmc3_counter_raises_an_interrupt_on_reaching_zero() {
    let mut rom = Rom::new(mmc3_image());
    rom.store(0xC000, 3);
    rom.store(0xC001, 0);
    // the first tick reloads, the next three count down to zero
    assert!(!rom.irq_interrupted());
    assert!(!rom.irq_interrupted());
    assert!(!rom.irq_interrupted());
    assert!(rom.irq_interrupted());
    // reaching zero has armed a reload
    assert!(!rom.irq_interrupted());
    assert!(!rom.irq_interrupted());
    assert!(!rom.irq_interrupted());
    assert!(rom.irq_interrupted());
    // a disabled counter stands still
    rom.store(0xE000, 0);
    for _ in 0..8 {
        assert!(!rom.irq_interrupted());
    }
    rom.store(0xE001, 0);
    assert!(!rom.irq_interrupted());
    assert!(!rom.irq_interrupted());
    assert!(rom.irq_interrupted());
}

#[test]
fn other_mappers_never_raise_an_interrupt() {
    for mapper in 0..4u8 {
        let mut rom = Rom::new(image(mapper, 2, 1, 0));
        for _ in 0..4 {
            assert!(!rom.irq_interrupted());
        }
    }
}

#[test]
fn mapper_offsets_stay_below_four_mebibytes() {
    let header = RomHeader::new(&image(1, 255, 0, 0));
    let mut mapper = MapperFactory::create(&header).unwrap();
    for bit in [1u8, 1, 1, 1, 1] {
        mapper.store(0xE000, bit);
    }
    assert!(mapper.map(0xFFFF) < 0x40_0000);
    assert_eq!(254 * 0x4000 + 0x3FFF, mapper.map(0xFFFF));
    assert_eq!(15 * 0x4000, mapper.map(0x8000));
}

#[test]
fn the_unused_header_bytes_read_as_one_number() {
    let data = vec![0x4e, 0x45, 0x53, 0x1a, 1, 1, 0x06, 0, 3, 0x01, 0x02, 0x03, 0x04, 0x05, 0x06, 0x07];
    let header = RomHeader::new(&data);
    assert_eq!(0x01020304050607, header.unused_field());
    assert_eq!(3, header.ram_bank_num());
    assert_eq!(1, header.battery_backed_ram());
    assert_eq!(1, header.trainer_512_bytes());
    assert!(header.is_horizontal_mirroring());
    let mut vertical = data.clone();
    vertical[6] = 0x01;
    let header = RomHeader::new(&vertical);
    assert!(!header.is_horizontal_mirroring());
    assert_eq!(0, header.battery_backed_ram());
    assert_eq!(0, header.trainer_512_bytes());
}

#[test]
fn mmc3_even_write_sets_the_latch_and_odd_write_arms_the_reload() {
    let mut rom = Rom::new(mmc3_image());
    rom.store(0xC000, 3);
    rom.store(0xC001, 0);
    // the reload takes the latch
    assert!(!rom.irq_interrupted());
    // a new latch alone leaves the count as it is: 2, 1, 0
    rom.store(0xC000, 7);
    assert!(!rom.irq_interrupted());
    assert!(!rom.irq_interrupted());
    assert!(rom.irq_interrupted());
    // reaching zero has armed a reload, which takes the new latch
    for _ in 0..7 {
        assert!(!rom.irq_interrupted());
    }
    assert!(rom.irq_interrupted());
    // the odd address arms a reload in the middle of a count
    assert!(!rom.irq_interrupted());
    assert!(!rom.irq_interrupted());
    rom.store(0xC000, 2);
    rom.store(0xC001, 0);
    assert!(!rom.irq_interrupted());
    assert!(!rom.irq_interrupted());
    assert!(rom.irq_interrupted());
}

