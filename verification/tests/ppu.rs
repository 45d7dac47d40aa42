use nes_rust::default_display::DefaultDisplay;
use nes_rust::display::Display;
use nes_rust::ppu::{Ppu, PpuControlRegister};
use nes_rust::rom::Rom;

/// A cartridge without character banks; bit 0 of `flags` selects vertical mirroring.
fn cartridge(flags: u8) -> Rom {
    let mut data = vec![0x4e, 0x45, 0x53, 0x1a, 1, 0, flags, 0, 0, 0, 0, 0, 0, 0, 0, 0];
    data.extend(std::iter::repeat(0u8).take(0x4000));
    Rom::new(data)
}

fn unit() -> Ppu<DefaultDisplay> {
    Ppu::new(DefaultDisplay::new())
}

fn run(ppu: &mut Ppu<DefaultDisplay>, rom: &mut Rom, dots: u32) {
    for _ in 0..dots {
        ppu.step(rom);
    }
}

fn set_address(ppu: &mut Ppu<DefaultDisplay>, rom: &mut Rom, address: u16) {
    ppu.store_register(0x2006, (address >> 8) as u8, rom);
    ppu.store_register(0x2006, address as u8, rom);
}

fn write_at(ppu: &mut Ppu<DefaultDisplay>, rom: &mut Rom, address: u16, bytes: &[u8]) {
    set_address(ppu, rom, address);
    for byte in bytes {
        ppu.store_register(0x2007, *byte, rom);
    }
}

fn read_at(ppu: &mut Ppu<DefaultDisplay>, rom: &mut Rom, address: u16, n: usize) -> Vec<u8> {
    set_address(ppu, rom, address);
    let mut bytes = Vec::new();
    for _ in 0..n {
        bytes.push(ppu.load_register(0x2007, rom));
    }
    bytes
}

#[test]
fn a_scanline_has_341_dots_and_a_frame_262_scanlines() {
    let mut ppu = unit();
    let mut rom = cartridge(0);
    assert_eq!((0, 0, 0), (ppu.frame(), ppu.scanline(), ppu.cycle()));
    run(&mut ppu, &mut rom, 340);
    assert_eq!((0, 0, 340), (ppu.frame(), ppu.scanline(), ppu.cycle()));
    run(&mut ppu, &mut rom, 1);
    assert_eq!((0, 1, 0), (ppu.frame(), ppu.scanline(), ppu.cycle()));
    run(&mut ppu, &mut rom, 89342 - 341 - 1);
    assert_eq!((0, 261, 340), (ppu.frame(), ppu.scanline(), ppu.cycle()));
    run(&mut ppu, &mut rom, 1);
    assert_eq!((1, 0, 0), (ppu.frame(), ppu.scanline(), ppu.cycle()));
    // an odd frame is as long as an even one
    run(&mut ppu, &mut rom, 89342);
    assert_eq!((2, 0, 0), (ppu.frame(), ppu.scanline(), ppu.cycle()));
}

#[test]
fn vblank_is_set_on_dot_1_of_scanline_241_and_cleared_by_a_read() {
    let mut ppu = unit();
    let mut rom = cartridge(0);
    place_sprites(&mut ppu, &mut rom, &[]);
    run(&mut ppu, &mut rom, 241 * 341 - 10);
    assert_eq!(0x00, ppu.load_register(0x2002, &rom));
    run(&mut ppu, &mut rom, 20);
    assert_eq!((241, 10), (ppu.scanline(), ppu.cycle()));
    assert_eq!(0x80, ppu.load_register(0x2002, &rom));
    assert_eq!(0x00, ppu.load_register(0x2002, &rom));
}

#[test]
fn vblank_is_cleared_on_dot_1_of_scanline_261() {
    let mut ppu = unit();
    let mut rom = cartridge(0);
    run(&mut ppu, &mut rom, 261 * 341 + 1);
    assert_eq!(0x80, ppu.load_register(0x2002, &rom) & 0x80);
    let mut ppu = unit();
    run(&mut ppu, &mut rom, 261 * 341 + 2);
    assert_eq!(0x00, ppu.load_register(0x2002, &rom) & 0x80);
}

#[test]
fn the_interrupt_is_raised_on_dot_20_where_enabled() {
    let mut rom = cartridge(0);
    let mut ppu = unit();
    ppu.store_register(0x2000, 0x80, &mut rom);
    run(&mut ppu, &mut rom, 241 * 341 + 20);
    assert!(!ppu.nmi_interrupted());
    run(&mut ppu, &mut rom, 1);
    assert!(ppu.nmi_interrupted());
    ppu.clear_nmi_interrupted();
    assert!(!ppu.nmi_interrupted());
    let mut quiet = unit();
    run(&mut quiet, &mut rom, 242 * 341);
    assert!(!quiet.nmi_interrupted());
}

#[test]
fn a_status_read_at_the_start_of_vblank_suppresses_flag_and_interrupt() {
    let mut rom = cartridge(0);
    let mut ppu = unit();
    ppu.store_register(0x2000, 0x80, &mut rom);
    run(&mut ppu, &mut rom, 241 * 341 + 1);
    assert_eq!((241, 1), (ppu.scanline(), ppu.cycle()));
    // the read sees the flag as set, and the flag is never set
    assert_eq!(0x80, ppu.load_register(0x2002, &rom) & 0x80);
    run(&mut ppu, &mut rom, 40);
    assert!(!ppu.nmi_interrupted());
    assert_eq!(0x00, ppu.load_register(0x2002, &rom) & 0x80);
}

#[test]
fn enabling_the_interrupt_during_vblank_raises_it_at_once() {
    let mut rom = cartridge(0);
    let mut ppu = unit();
    ppu.bootup();
    assert!(!ppu.nmi_interrupted());
    ppu.store_register(0x2000, 0x80, &mut rom);
    assert!(ppu.nmi_interrupted());
    ppu.clear_nmi_interrupted();
    // writing the same value again is no change from 0 to 1
    ppu.store_register(0x2000, 0x80, &mut rom);
    assert!(!ppu.nmi_interrupted());
}

#[test]
fn palette_entry_0x10_is_entry_0x00() {
    let mut rom = cartridge(0);
    let mut ppu = unit();
    write_at(&mut ppu, &mut rom, 0x3F10, &[0x55]);
    // reads in the palette are not buffered
    assert_eq!(vec![0x55, 0x00], read_at(&mut ppu, &mut rom, 0x3F00, 2));
    write_at(&mut ppu, &mut rom, 0x3F04, &[0x2A]);
    assert_eq!(vec![0x2A], read_at(&mut ppu, &mut rom, 0x3F14, 1));
    write_at(&mut ppu, &mut rom, 0x3F11, &[0x11]);
    assert_eq!(vec![0x00], read_at(&mut ppu, &mut rom, 0x3F01, 1));
    assert_eq!(vec![0x11], read_at(&mut ppu, &mut rom, 0x3F11, 1));
}

#[test]
fn the_palette_repeats_every_32_bytes() {
    let mut rom = cartridge(0);
    let mut ppu = unit();
    write_at(&mut ppu, &mut rom, 0x3F03, &[0x33]);
    assert_eq!(vec![0x33], read_at(&mut ppu, &mut rom, 0x3F23, 1));
    assert_eq!(vec![0x33], read_at(&mut ppu, &mut rom, 0x3FE3, 1));
    write_at(&mut ppu, &mut rom, 0x3FF0, &[0x0C]);
    assert_eq!(vec![0x0C], read_at(&mut ppu, &mut rom, 0x3F00, 1));
}

#[test]
fn a_palette_read_fills_the_buffer_from_the_nametable_behind_it() {
    let mut rom = cartridge(0);
    let mut ppu = unit();
    write_at(&mut ppu, &mut rom, 0x2F00, &[0x77]);
    write_at(&mut ppu, &mut rom, 0x3F00, &[0x12]);
    assert_eq!(vec![0x12], read_at(&mut ppu, &mut rom, 0x3F00, 1));
    // the next read below the palette returns what the buffer took then
    assert_eq!(vec![0x77], read_at(&mut ppu, &mut rom, 0x2000, 1));
}

#[test]
fn written_bytes_are_read_back_in_order_after_a_priming_read() {
    let mut rom = cartridge(0);
    let mut ppu = unit();
    write_at(&mut ppu, &mut rom, 0x2005, &[0x42, 0x43, 0x44]);
    let bytes = read_at(&mut ppu, &mut rom, 0x2005, 4);
    assert_eq!(vec![0x42, 0x43, 0x44], bytes[1..].to_vec());
    // pattern memory of a cartridge without character banks works alike
    write_at(&mut ppu, &mut rom, 0x0FFE, &[1, 2, 3, 4]);
    assert_eq!(vec![1, 2, 3, 4], read_at(&mut ppu, &mut rom, 0x0FFE, 5)[1..].to_vec());
}

#[test]
fn the_address_moves_by_32_where_the_control_register_says_so() {
    let mut rom = cartridge(0);
    let mut ppu = unit();
    ppu.store_register(0x2000, 0x04, &mut rom);
    write_at(&mut ppu, &mut rom, 0x2000, &[7, 9]);
    ppu.store_register(0x2000, 0x00, &mut rom);
    assert_eq!(vec![7], read_at(&mut ppu, &mut rom, 0x2000, 2)[1..].to_vec());
    assert_eq!(vec![9], read_at(&mut ppu, &mut rom, 0x2020, 2)[1..].to_vec());
    assert_eq!(vec![0], read_at(&mut ppu, &mut rom, 0x2001, 2)[1..].to_vec());
}

#[test]
fn a_status_read_makes_the_next_address_write_the_first() {
    let mut rom = cartridge(0);
    let mut ppu = unit();
    ppu.store_register(0x2006, 0x21, &mut rom);
    ppu.load_register(0x2002, &rom);
    ppu.store_register(0x2006, 0x23, &mut rom);
    ppu.store_register(0x2006, 0x45, &mut rom);
    ppu.store_register(0x2007, 0xAB, &mut rom);
    assert_eq!(vec![0xAB], read_at(&mut ppu, &mut rom, 0x2345, 2)[1..].to_vec());
    // bits 7 and 6 of the first write do not count
    ppu.store_register(0x2006, 0xE3, &mut rom);
    ppu.store_register(0x2006, 0x45, &mut rom);
    assert_eq!(0xAB, {
        ppu.load_register(0x2007, &rom);
        ppu.load_register(0x2007, &rom)
    });
}

#[test]
fn the_scroll_register_shares_the_write_toggle() {
    let mut rom = cartridge(0);
    let mut ppu = unit();
    // a first write to the scroll register makes the next address write the second
    ppu.store_register(0x2005, 0x00, &mut rom);
    ppu.store_register(0x2006, 0x10, &mut rom);
    ppu.store_register(0x2007, 0x5C, &mut rom);
    assert_eq!(vec![0x5C], read_at(&mut ppu, &mut rom, 0x0010, 2)[1..].to_vec());
}

#[test]
fn nametables_are_mirrored_as_the_cartridge_says() {
    let mut horizontal = cartridge(0);
    let mut ppu = unit();
    write_at(&mut ppu, &mut horizontal, 0x2000, &[1]);
    write_at(&mut ppu, &mut horizontal, 0x2800, &[2]);
    assert_eq!(1, read_at(&mut ppu, &mut horizontal, 0x2400, 2)[1]);
    assert_eq!(2, read_at(&mut ppu, &mut horizontal, 0x2C00, 2)[1]);
    assert_eq!(1, read_at(&mut ppu, &mut horizontal, 0x3000, 2)[1]);
    let mut vertical = cartridge(1);
    let mut ppu = unit();
    write_at(&mut ppu, &mut vertical, 0x2000, &[1]);
    write_at(&mut ppu, &mut vertical, 0x2400, &[2]);
    assert_eq!(1, read_at(&mut ppu, &mut vertical, 0x2800, 2)[1]);
    assert_eq!(2, read_at(&mut ppu, &mut vertical, 0x2C00, 2)[1]);
    assert_eq!(2, read_at(&mut ppu, &mut vertical, 0x3400, 2)[1]);
    let mut four = cartridge(8);
    let mut ppu = unit();
    write_at(&mut ppu, &mut four, 0x2000, &[1]);
    write_at(&mut ppu, &mut four, 0x2400, &[2]);
    write_at(&mut ppu, &mut four, 0x2800, &[3]);
    write_at(&mut ppu, &mut four, 0x2C00, &[4]);
    assert_eq!(1, read_at(&mut ppu, &mut four, 0x2000, 2)[1]);
    assert_eq!(2, read_at(&mut ppu, &mut four, 0x2400, 2)[1]);
    assert_eq!(3, read_at(&mut ppu, &mut four, 0x2800, 2)[1]);
    assert_eq!(4, read_at(&mut ppu, &mut four, 0x2C00, 2)[1]);
}

#[test]
fn sprite_memory_is_written_and_read_through_its_two_registers() {
    let mut rom = cartridge(0);
    let mut ppu = unit();
    ppu.store_register(0x2003, 0xFE, &mut rom);
    ppu.store_register(0x2004, 0xAA, &mut rom);
    ppu.store_register(0x2004, 0xBB, &mut rom);
    ppu.store_register(0x2004, 0xCC, &mut rom);
    // the address has wrapped to 1; a read does not move it
    assert_eq!(0x00, ppu.load_register(0x2004, &rom));
    ppu.store_register(0x2003, 0xFF, &mut rom);
    assert_eq!(0xBB, ppu.load_register(0x2004, &rom));
    assert_eq!(0xBB, ppu.load_register(0x2004, &rom));
    ppu.store_register(0x2003, 0x00, &mut rom);
    assert_eq!(0xCC, ppu.load_register(0x2004, &rom));
}

#[test]
fn write_only_registers_read_as_the_bus_latch() {
    let mut rom = cartridge(0);
    let mut ppu = unit();
    ppu.store_register(0x2001, 0x5A, &mut rom);
    assert_eq!(0x5A, ppu.load_register(0x2000, &rom));
    assert_eq!(0x5A, ppu.load_register(0x2001, &rom));
    assert_eq!(0x5A, ppu.load_register(0x2005, &rom));
    assert_eq!(0x5A, ppu.load_register(0x4014, &rom));
    // the low five bits of the status come from the latch
    assert_eq!(0x1A, ppu.load_register(0x2002, &rom));
    ppu.bootup();
    assert_eq!(0x9A, ppu.load_register(0x2002, &rom));
}

fn place_sprites(ppu: &mut Ppu<DefaultDisplay>, rom: &mut Rom, sprites: &[[u8; 4]]) {
    ppu.store_register(0x2003, 0, rom);
    for i in 0..64 {
        let sprite = if i < sprites.len() { sprites[i] } else { [0xF0, 0, 0, 0] };
        for byte in sprite {
            ppu.store_register(0x2004, byte, rom);
        }
    }
}

#[test]
fn a_ninth_sprite_on_a_scanline_sets_the_overflow_flag() {
    let mut rom = cartridge(0);
    let mut ppu = unit();
    place_sprites(&mut ppu, &mut rom, &[[10, 0, 0, 0]; 8]);
    run(&mut ppu, &mut rom, 20 * 341);
    assert_eq!(0x00, ppu.load_register(0x2002, &rom) & 0x20);
    let mut ppu = unit();
    place_sprites(&mut ppu, &mut rom, &[[10, 0, 0, 0]; 9]);
    run(&mut ppu, &mut rom, 10 * 341 + 257);
    assert_eq!(0x00, ppu.load_register(0x2002, &rom) & 0x20);
    run(&mut ppu, &mut rom, 1);
    assert_eq!(0x20, ppu.load_register(0x2002, &rom) & 0x20);
    // the flag stays until dot 1 of scanline 261
    run(&mut ppu, &mut rom, (261 - 10) * 341 - 258 + 1);
    assert_eq!((261, 1), (ppu.scanline(), ppu.cycle()));
    assert_eq!(0x20, ppu.load_register(0x2002, &rom) & 0x20);
    run(&mut ppu, &mut rom, 1);
    assert_eq!(0x00, ppu.load_register(0x2002, &rom) & 0x20);
}

/// Tile 1 is solid, every nametable shows it everywhere, sprite 0 shows it
/// at column 50 from scanline 21 on.
fn solid_scene(ppu: &mut Ppu<DefaultDisplay>, rom: &mut Rom, sprite_x: u8) {
    write_at(ppu, rom, 0x0010, &[0xFF; 8]);
    write_at(ppu, rom, 0x2000, &[1; 0x1000]);
    place_sprites(ppu, rom, &[[20, 1, 0, sprite_x]]);
    set_address(ppu, rom, 0x0000);
}

#[test]
fn sprite_zero_hits_where_it_meets_the_background() {
    let mut rom = cartridge(0);
    let mut ppu = unit();
    solid_scene(&mut ppu, &mut rom, 50);
    ppu.store_register(0x2001, 0x1E, &mut rom);
    run(&mut ppu, &mut rom, 21 * 341 + 51);
    assert_eq!(0x00, ppu.load_register(0x2002, &rom) & 0x40);
    run(&mut ppu, &mut rom, 1);
    assert_eq!(0x40, ppu.load_register(0x2002, &rom) & 0x40);
}

#[test]
fn sprite_zero_does_not_hit_while_sprites_or_background_are_off() {
    for mask in [0x0Au8, 0x14, 0x00] {
        let mut rom = cartridge(0);
        let mut ppu = unit();
        solid_scene(&mut ppu, &mut rom, 50);
        ppu.store_register(0x2001, mask, &mut rom);
        // the flag would last until dot 1 of scanline 261
        run(&mut ppu, &mut rom, 260 * 341);
        assert_eq!(0x00, ppu.load_register(0x2002, &rom) & 0x40);
    }
}

#[test]
fn sprite_zero_does_not_hit_in_the_masked_left_columns_nor_at_column_255() {
    let mut rom = cartridge(0);
    let mut ppu = unit();
    solid_scene(&mut ppu, &mut rom, 0);
    // sprites are hidden in the eight columns on the left
    ppu.store_register(0x2001, 0x1A, &mut rom);
    run(&mut ppu, &mut rom, 260 * 341);
    assert_eq!(0x00, ppu.load_register(0x2002, &rom) & 0x40);
    let mut ppu = unit();
    solid_scene(&mut ppu, &mut rom, 255);
    ppu.store_register(0x2001, 0x1E, &mut rom);
    run(&mut ppu, &mut rom, 260 * 341);
    assert_eq!(0x00, ppu.load_register(0x2002, &rom) & 0x40);
    let mut ppu = unit();
    solid_scene(&mut ppu, &mut rom, 254);
    ppu.store_register(0x2001, 0x1E, &mut rom);
    run(&mut ppu, &mut rom, 260 * 341);
    assert_eq!(0x40, ppu.load_register(0x2002, &rom) & 0x40);
}

fn pixel(ppu: &Ppu<DefaultDisplay>, x: usize, y: usize) -> [u8; 4] {
    let mut out = vec![0u8; 245760];
    ppu.get_display().copy_to_rgba_pixels(&mut out);
    let base = (y * 256 + x) * 4;
    [out[base], out[base + 1], out[base + 2], out[base + 3]]
}

#[test]
fn with_rendering_off_every_pixel_shows_the_backdrop() {
    let mut rom = cartridge(0);
    let mut ppu = unit();
    write_at(&mut ppu, &mut rom, 0x3F00, &[0x21]);
    run(&mut ppu, &mut rom, 89342);
    // colour 0x21 is ff bf 3f, kept blue first
    assert_eq!([0x3f, 0xbf, 0xff, 255], pixel(&ppu, 0, 0));
    assert_eq!([0x3f, 0xbf, 0xff, 255], pixel(&ppu, 255, 239));
    assert_eq!([0x3f, 0xbf, 0xff, 255], pixel(&ppu, 100, 17));
}

#[test]
fn greyscale_and_emphasis_change_the_colour() {
    let mut rom = cartridge(0);
    let mut ppu = unit();
    write_at(&mut ppu, &mut rom, 0x3F00, &[0x21]);
    ppu.store_register(0x2001, 0x01, &mut rom);
    run(&mut ppu, &mut rom, 2);
    assert_eq!([0xff, 0xff, 0xff, 255], pixel(&ppu, 0, 0));
    ppu.store_register(0x2001, 0x20, &mut rom);
    run(&mut ppu, &mut rom, 1);
    assert_eq!([0x3f, 0xbf, 0xff, 255], pixel(&ppu, 1, 0));
    write_at(&mut ppu, &mut rom, 0x3F00, &[0x01]);
    ppu.store_register(0x2001, 0xC0, &mut rom);
    run(&mut ppu, &mut rom, 1);
    // colour 0x01 is 8f 1b 27 with green and blue at full strength
    assert_eq!([0xff, 0xff, 0x8f, 255], pixel(&ppu, 2, 0));
    // only the low six bits of a palette byte select the colour
    write_at(&mut ppu, &mut rom, 0x3F00, &[0xC1]);
    ppu.store_register(0x2001, 0x00, &mut rom);
    run(&mut ppu, &mut rom, 1);
    assert_eq!([0x27, 0x1b, 0x8f, 255], pixel(&ppu, 3, 0));
}

#[test]
fn a_sprite_in_front_covers_the_background_and_one_behind_does_not() {
    let mut rom = cartridge(0);
    let mut ppu = unit();
    // tile 1 has pattern value 1, tile 2 pattern value 2
    write_at(&mut ppu, &mut rom, 0x0010, &[0xFF; 8]);
    write_at(&mut ppu, &mut rom, 0x0028, &[0xFF; 8]);
    write_at(&mut ppu, &mut rom, 0x2000, &[1; 0x1000]);
    write_at(&mut ppu, &mut rom, 0x23C0, &[0; 64]);
    write_at(&mut ppu, &mut rom, 0x2BC0, &[0; 64]);
    // background palette 0 entry 1, sprite palette 0 entry 2
    write_at(&mut ppu, &mut rom, 0x3F00, &[0x0F, 0x21]);
    write_at(&mut ppu, &mut rom, 0x3F12, &[0x16]);
    place_sprites(&mut ppu, &mut rom, &[[20, 2, 0x00, 40], [20, 2, 0x20, 80]]);
    set_address(&mut ppu, &mut rom, 0x0000);
    ppu.store_register(0x2001, 0x1E, &mut rom);
    run(&mut ppu, &mut rom, 30 * 341);
    // colour 0x16 is 00 2b db, colour 0x21 is ff bf 3f
    assert_eq!([0xdb, 0x2b, 0x00, 255], pixel(&ppu, 40, 21));
    assert_eq!([0xdb, 0x2b, 0x00, 255], pixel(&ppu, 47, 28));
    assert_eq!([0x3f, 0xbf, 0xff, 255], pixel(&ppu, 48, 21));
    assert_eq!([0x3f, 0xbf, 0xff, 255], pixel(&ppu, 40, 20));
    assert_eq!([0x3f, 0xbf, 0xff, 255], pixel(&ppu, 80, 21));
}

#[test]
fn reset_clears_the_registers_and_the_clock() {
    let mut rom = cartridge(0);
    let mut ppu = unit();
    ppu.store_register(0x2000, 0x04, &mut rom);
    ppu.store_register(0x2006, 0x20, &mut rom);
    run(&mut ppu, &mut rom, 1000);
    ppu.reset();
    assert_eq!((0, 0, 0), (ppu.frame(), ppu.scanline(), ppu.cycle()));
    // the write toggle is back at the first write and the step is 1 again
    write_at(&mut ppu, &mut rom, 0x2000, &[5, 6]);
    assert_eq!(vec![5, 6], read_at(&mut ppu, &mut rom, 0x2000, 3)[1..].to_vec());
}

#[test]
fn the_control_register_names_the_base_nametable() {
    let mut control = PpuControlRegister::new();
    assert_eq!(0x2000, control.base_name_table_address());
    control.store(0xFD);
    assert_eq!(0x2400, control.base_name_table_address());
    control.store(0x02);
    assert_eq!(0x2800, control.base_name_table_address());
    control.store(0x03);
    assert_eq!(0x2C00, control.base_name_table_address());
    assert_eq!(8, control.sprite_height());
    assert_eq!(1, control.increment_address_size());
    control.store(0xFC);
    assert_eq!(16, control.sprite_height());
    assert_eq!(32, control.increment_address_size());
    assert_eq!(0x1000, control.background_pattern_table_base_address());
    assert_eq!(0x1000, control.sprite_pattern_table_base_address());
    assert!(control.is_nmi_enabled());
}
