//! What holds of the picture processing unit whatever state it is in.

use vstd::prelude::*;
use crate::ppu::lemma_vram_address_bits;
use crate::ppu_state::{
    lemma_no_hit_without_rendering,
    palette_address,
    vram_address,
    PpuState,
};
use crate::rom::RomState;
use crate::sprite::{sprite_at, with_sprite, Sprite};

verus! {

proof fn lemma_address_latch_bits(t: u16, high: u8, low: u8)
    by (bit_vector)
    ensures
        PpuState::t_after_address_low(PpuState::t_after_address_high(t, high), low) == ((((high as u16)
            & 0x3F) << 8u8) | low as u16),
{
}

/// A read of the status register makes the next write to the address
/// register the first of two: after it, two writes leave `v` with the low
/// six bits of the first above the second.
pub proof fn lemma_status_read_resets_the_address_latch(
    s: PpuState,
    rom: RomState,
    high: u8,
    low: u8,
)
    ensures
        s.after_load_register(0x2002, rom).register_first_store,
        s.after_load_register(0x2002, rom).after_store_register(0x2006, high, rom).0.after_store_register(
            0x2006,
            low,
            rom,
        ).0.current_vram_address == ((((high as u16) & 0x3F) << 8u8) | low as u16),
{
    lemma_address_latch_bits(s.temporal_vram_address, high, low);
}

proof fn lemma_palette_alias_bits()
    by (bit_vector)
    ensures
        0x3F10u16 & 0x3FFF == 0x3F10,
        0x3F14u16 & 0x3FFF == 0x3F14,
        0x3F18u16 & 0x3FFF == 0x3F18,
        0x3F1Cu16 & 0x3FFF == 0x3F1C,
        0x3F00u16 & 0x3FFF == 0x3F00,
        0x3F04u16 & 0x3FFF == 0x3F04,
        0x3F08u16 & 0x3FFF == 0x3F08,
        0x3F0Cu16 & 0x3FFF == 0x3F0C,
        palette_address(0x3F10) == 0x3F00,
        palette_address(0x3F14) == 0x3F04,
        palette_address(0x3F18) == 0x3F08,
        palette_address(0x3F1C) == 0x3F0C,
        palette_address(0x3F00) == 0x3F00,
        palette_address(0x3F04) == 0x3F04,
        palette_address(0x3F08) == 0x3F08,
        palette_address(0x3F0C) == 0x3F0C,
{
}

/// The palette entries 0x10, 0x14, 0x18 and 0x1C are the entries 0x00,
/// 0x04, 0x08 and 0x0C: a byte written at one of the first reads back at
/// the other, and the other way round.
pub proof fn lemma_palette_entries_are_shared(s: PpuState, rom: RomState, value: u8, entry: u16)
    requires
        s.wf(),
        entry == 0x00 || entry == 0x04 || entry == 0x08 || entry == 0x0C,
    ensures
        s.after_store((0x3F10 + entry) as u16, value, rom).0.load((0x3F00 + entry) as u16, rom)
            == value,
        s.after_store((0x3F00 + entry) as u16, value, rom).0.load((0x3F10 + entry) as u16, rom)
            == value,
{
    lemma_palette_alias_bits();
}

/// Whether the data register, with `v` at `address`, reaches a cell of
/// video memory below the palette and moves on by one.
pub open spec fn plain_cell(s: PpuState, rom: RomState, address: u16) -> bool {
    &&& s.wf()
    &&& s.increment_address_size() == 1
    &&& address < 0x3EFF
    &&& !PpuState::on_cartridge(address, rom)
}

proof fn lemma_data_address_bits(address: u16)
    by (bit_vector)
    requires
        address < 0x3EFF,
    ensures
        address & 0x3FFF == address,
        (address + 1) as u16 & 0x7FFF == address + 1,
        ((address + 1) as u16) & 0x3FFF == address + 1,
        address & 0x7FFF == address,
{
}

/// A byte written through the data register is read back through it:
/// with `v` set to the same address again, the first read fills the read
/// buffer with the byte and the second read returns it.
pub proof fn lemma_vram_write_then_two_reads(s: PpuState, rom: RomState, address: u16, value: u8)
    requires
        plain_cell(s, rom, address),
        s.current_vram_address == address,
    ensures
        ({
            let written = s.after_store_register(0x2007, value, rom).0;
            let rewound = PpuState { current_vram_address: address, ..written };
            let primed = rewound.after_load_register(0x2007, rom);
            &&& s.after_store_register(0x2007, value, rom).1 == rom
            &&& written.current_vram_address == address + 1
            &&& primed.vram_read_buffer == value
            &&& primed.register_value(0x2007, rom) == value
        }),
{
    lemma_data_address_bits(address);
    lemma_vram_address_bits(address);
    crate::ppu::lemma_vram_address_in_range(address, rom.mirroring_type());
}

/// The cell of video memory that the data register reaches `i` accesses
/// after it has reached `address`.
pub open spec fn cell(rom: RomState, address: u16, i: int) -> int {
    vram_address((address + i) as u16, rom.mirroring_type()) as int
}

/// Whether the access `i` accesses after `address` goes to the cartridge.
pub open spec fn reaches_cartridge(rom: RomState, address: u16, i: int) -> bool {
    PpuState::on_cartridge((address + i) as u16, rom)
}

/// The unit after the bytes of `bytes` have been written through the data
/// register, one after the other.
pub open spec fn after_writes(s: PpuState, rom: RomState, bytes: Seq<u8>) -> PpuState
    decreases bytes.len(),
{
    if bytes.len() == 0 {
        s
    } else {
        after_writes(s, rom, bytes.drop_last()).after_store_register(0x2007, bytes.last(), rom).0
    }
}

/// The unit after `n` reads through the data register.
pub open spec fn after_reads(s: PpuState, rom: RomState, n: nat) -> PpuState
    decreases n,
{
    if n == 0 {
        s
    } else {
        after_reads(s, rom, (n - 1) as nat).after_load_register(0x2007, rom)
    }
}

/// Whether `n` accesses from `address` on reach `n` different cells of
/// video memory below the palette, moving on by one each time.
pub open spec fn plain_run(s: PpuState, rom: RomState, address: u16, n: nat) -> bool {
    &&& s.wf()
    &&& s.increment_address_size() == 1
    &&& address + n <= 0x3EFF
    &&& forall|i: int| 0 <= i < n ==> !#[trigger] reaches_cartridge(rom, address, i)
    &&& forall|i: int, j: int| 0 <= i < j < n ==> cell(rom, address, i) != cell(rom, address, j)
}

/// Writing through the data register leaves each byte in its cell and
/// changes nothing but video memory, the address and the bus.
pub proof fn lemma_writes_fill_the_cells(s: PpuState, rom: RomState, address: u16, bytes: Seq<u8>)
    requires
        plain_run(s, rom, address, bytes.len()),
        s.current_vram_address == address,
    ensures
        after_writes(s, rom, bytes).wf(),
        after_writes(s, rom, bytes).current_vram_address == address + bytes.len(),
        after_writes(s, rom, bytes).ppuctrl == s.ppuctrl,
        after_writes(s, rom, bytes).vram.len() == s.vram.len(),
        forall|i: int|
            0 <= i < bytes.len() ==> after_writes(s, rom, bytes).vram[cell(rom, address, i)]
                == bytes[i],
    decreases bytes.len(),
{
    if bytes.len() > 0 {
        let n = (bytes.len() - 1) as nat;
        let before = after_writes(s, rom, bytes.drop_last());
        lemma_writes_fill_the_cells(s, rom, address, bytes.drop_last());
        let a = (address + n) as u16;
        assert(!reaches_cartridge(rom, address, n as int));
        lemma_data_address_bits(a);
        crate::ppu::lemma_vram_address_in_range(a, rom.mirroring_type());
        crate::ppu::lemma_address_registers(
            before.current_vram_address,
            before.temporal_vram_address,
            0,
        );
        let after = before.after_store_register(0x2007, bytes.last(), rom).0;
        assert(after.vram == before.vram.update(cell(rom, address, n as int), bytes.last()));
        assert forall|i: int| 0 <= i < bytes.len() implies after.vram[cell(rom, address, i)]
            == bytes[i] by {
            lemma_data_address_bits((address + i) as u16);
            crate::ppu::lemma_vram_address_in_range((address + i) as u16, rom.mirroring_type());
            if i < n {
                assert(cell(rom, address, i) != cell(rom, address, n as int));
                assert(bytes.drop_last()[i] == bytes[i]);
            }
        }
    }
}

/// Reading through the data register changes neither video memory nor the
/// control register; each read leaves in the read buffer the byte of the
/// cell that it has reached, and the next read returns it.
pub proof fn lemma_reads_follow_the_cells(s: PpuState, rom: RomState, address: u16, n: nat)
    requires
        plain_run(s, rom, address, n),
        s.current_vram_address == address,
    ensures
        after_reads(s, rom, n).wf(),
        after_reads(s, rom, n).current_vram_address == address + n,
        after_reads(s, rom, n).ppuctrl == s.ppuctrl,
        after_reads(s, rom, n).vram == s.vram,
        n > 0 ==> after_reads(s, rom, n).vram_read_buffer == s.vram[cell(
            rom,
            address,
            n - 1,
        )],
        address + n < 0x3EFF ==> after_reads(s, rom, n).register_value(0x2007, rom) == after_reads(
            s,
            rom,
            n,
        ).vram_read_buffer,
    decreases n,
{
    if n > 0 {
        let before = after_reads(s, rom, (n - 1) as nat);
        lemma_reads_follow_the_cells(s, rom, address, (n - 1) as nat);
        let a = (address + n - 1) as u16;
        assert(!reaches_cartridge(rom, address, n - 1));
        lemma_data_address_bits(a);
        crate::ppu::lemma_vram_address_in_range(a, rom.mirroring_type());
        crate::ppu::lemma_address_registers(
            before.current_vram_address,
            before.temporal_vram_address,
            0,
        );
    }
    if address + n < 0x3EFF {
        lemma_data_address_bits((address + n) as u16);
    }
}

/// Bytes written through the data register come back in order: with `v`
/// set to the first address again, the first read primes the read buffer
/// and read number `k + 1` returns byte number `k`.
pub proof fn lemma_written_bytes_read_back_in_order(
    s: PpuState,
    rom: RomState,
    address: u16,
    bytes: Seq<u8>,
    k: nat,
)
    requires
        plain_run(s, rom, address, bytes.len() + 1),
        s.current_vram_address == address,
        k < bytes.len(),
    ensures
        ({
            let written = after_writes(s, rom, bytes);
            let rewound = PpuState { current_vram_address: address, ..written };
            after_reads(rewound, rom, k + 1).register_value(0x2007, rom) == bytes[k as int]
        }),
{
    lemma_writes_fill_the_cells(s, rom, address, bytes);
    let written = after_writes(s, rom, bytes);
    let rewound = PpuState { current_vram_address: address, ..written };
    lemma_reads_follow_the_cells(rewound, rom, address, k + 1);
}

/// The reads and writes of the processor do not reach the mask register
/// through a dot, so a dot leaves it as it is.
pub proof fn lemma_step_keeps_mask(s: PpuState, rom: RomState)
    requires
        s.wf(),
    ensures
        s.after_step(rom).0.ppumask == s.ppumask,
{
    reveal(PpuState::after_step);
    let fetched = s.after_render_pixel(rom).after_shift_registers().after_fetch(rom);
    let cleared = PpuState { sprite_availables: Seq::new(256, |i: int| false), ..fetched };
    let addressed = PpuState { oamaddr: 0, ..fetched };
    let cleared_addressed = PpuState {
        sprite_availables: Seq::new(256, |i: int| false),
        ..addressed
    };
    crate::ppu_state::lemma_sprite_scan_keeps(cleared, rom, 0, 0);
    crate::ppu_state::lemma_sprite_scan_keeps(cleared_addressed, rom, 0, 0);
}

/// While the background or the sprites are switched off, sprite 0 does
/// not hit: a flag that is clear stays clear over any number of dots.
pub proof fn lemma_no_hit_while_rendering_is_off(s: PpuState, rom: RomState, n: nat)
    requires
        s.wf(),
        !s.background_visible() || !s.sprites_visible(),
        !s.zero_hit(),
    ensures
        s.after_steps(rom, n).0.wf(),
        s.after_steps(rom, n).0.ppumask == s.ppumask,
        !s.after_steps(rom, n).0.zero_hit(),
    decreases n,
{
    if n > 0 {
        lemma_no_hit_while_rendering_is_off(s, rom, (n - 1) as nat);
        let (before, cartridge) = s.after_steps(rom, (n - 1) as nat);
        lemma_step_keeps_mask(before, cartridge);
        lemma_no_hit_without_rendering(before, cartridge);
        crate::ppu_state::lemma_step_keeps_wf(before, cartridge);
    }
}

/// The column of tiles that an address register points at, 0 to 31.
pub open spec fn coarse_x(v: u16) -> u16 {
    v & 0x1F
}

/// The row of tiles that an address register points at, 0 to 31.
pub open spec fn coarse_y(v: u16) -> u16 {
    (v >> 5u8) & 0x1F
}

/// The row of pixels within the tile, 0 to 7.
pub open spec fn fine_y(v: u16) -> u16 {
    (v >> 12u8) & 0x7
}

/// The nametable, 0 to 3: bit 0 selects the horizontal neighbour, bit 1
/// the vertical one.
pub open spec fn name_table_of(v: u16) -> u16 {
    (v >> 10u8) & 0x3
}

proof fn lemma_scroll_field_bits(v: u16, t: u16, value: u8)
    by (bit_vector)
    requires
        v < 0x8000,
    ensures
        // to the right
        coarse_x(PpuState::v_after_coarse_x(v)) == (coarse_x(v) + 1) % 32,
        coarse_y(PpuState::v_after_coarse_x(v)) == coarse_y(v),
        fine_y(PpuState::v_after_coarse_x(v)) == fine_y(v),
        name_table_of(PpuState::v_after_coarse_x(v)) == (if coarse_x(v) == 31 {
            name_table_of(v) ^ 1
        } else {
            name_table_of(v)
        }),
        // down
        coarse_x(PpuState::v_after_y(v)) == coarse_x(v),
        fine_y(PpuState::v_after_y(v)) == (fine_y(v) + 1) % 8,
        coarse_y(PpuState::v_after_y(v)) == (if fine_y(v) != 7 {
            coarse_y(v)
        } else if coarse_y(v) == 29 || coarse_y(v) == 31 {
            0u16
        } else {
            (coarse_y(v) + 1) as u16
        }),
        name_table_of(PpuState::v_after_y(v)) == (if fine_y(v) == 7 && coarse_y(v) == 29 {
            name_table_of(v) ^ 2
        } else {
            name_table_of(v)
        }),
        // the copies from t
        coarse_x(PpuState::v_with_horizontal(v, t)) == coarse_x(t),
        name_table_of(PpuState::v_with_horizontal(v, t)) == (name_table_of(v) & 2) | (name_table_of(t)
            & 1),
        coarse_y(PpuState::v_with_horizontal(v, t)) == coarse_y(v),
        fine_y(PpuState::v_with_horizontal(v, t)) == fine_y(v),
        coarse_y(PpuState::v_with_vertical(v, t)) == coarse_y(t),
        fine_y(PpuState::v_with_vertical(v, t)) == fine_y(t),
        name_table_of(PpuState::v_with_vertical(v, t)) == (name_table_of(v) & 1) | (name_table_of(t)
            & 2),
        coarse_x(PpuState::v_with_vertical(v, t)) == coarse_x(v),
{
}

/// Moving `v` to the right moves it to the next column of tiles, and from
/// column 31 to column 0 of the horizontal neighbour; moving it down
/// moves it to the next row of pixels, from the last row of a tile to the
/// next row of tiles, from tile row 29 to row 0 of the vertical neighbour
/// and from tile row 31 to row 0 of the same nametable. The copies from
/// `t` take the horizontal or the vertical fields and leave the others.
pub proof fn lemma_scrolling_moves_the_fields(v: u16, t: u16)
    requires
        v < 0x8000,
    ensures
        coarse_x(PpuState::v_after_coarse_x(v)) == (coarse_x(v) + 1) % 32,
        coarse_y(PpuState::v_after_coarse_x(v)) == coarse_y(v),
        fine_y(PpuState::v_after_coarse_x(v)) == fine_y(v),
        name_table_of(PpuState::v_after_coarse_x(v)) == (if coarse_x(v) == 31 {
            name_table_of(v) ^ 1
        } else {
            name_table_of(v)
        }),
        coarse_x(PpuState::v_after_y(v)) == coarse_x(v),
        fine_y(PpuState::v_after_y(v)) == (fine_y(v) + 1) % 8,
        coarse_y(PpuState::v_after_y(v)) == (if fine_y(v) != 7 {
            coarse_y(v)
        } else if coarse_y(v) == 29 || coarse_y(v) == 31 {
            0u16
        } else {
            (coarse_y(v) + 1) as u16
        }),
        name_table_of(PpuState::v_after_y(v)) == (if fine_y(v) == 7 && coarse_y(v) == 29 {
            name_table_of(v) ^ 2
        } else {
            name_table_of(v)
        }),
        coarse_x(PpuState::v_with_horizontal(v, t)) == coarse_x(t),
        coarse_y(PpuState::v_with_horizontal(v, t)) == coarse_y(v),
        fine_y(PpuState::v_with_horizontal(v, t)) == fine_y(v),
        coarse_y(PpuState::v_with_vertical(v, t)) == coarse_y(t),
        fine_y(PpuState::v_with_vertical(v, t)) == fine_y(t),
        coarse_x(PpuState::v_with_vertical(v, t)) == coarse_x(v),
{
    lemma_scroll_field_bits(v, t, 0);
}

proof fn lemma_register_write_bits(t: u16, value: u8)
    by (bit_vector)
    ensures
        name_table_of(PpuState::t_after_control(t, value)) == value & 0x3,
        coarse_x(PpuState::t_after_control(t, value)) == coarse_x(t),
        coarse_y(PpuState::t_after_control(t, value)) == coarse_y(t),
        fine_y(PpuState::t_after_control(t, value)) == fine_y(t),
        coarse_x(PpuState::t_after_scroll_x(t, value)) == value >> 3u8,
        coarse_y(PpuState::t_after_scroll_x(t, value)) == coarse_y(t),
        name_table_of(PpuState::t_after_scroll_x(t, value)) == name_table_of(t),
        coarse_y(PpuState::t_after_scroll_y(t, value)) == value >> 3u8,
        fine_y(PpuState::t_after_scroll_y(t, value)) == value & 0x7,
        coarse_x(PpuState::t_after_scroll_y(t, value)) == coarse_x(t),
        name_table_of(PpuState::t_after_scroll_y(t, value)) == name_table_of(t),
{
}

/// What the writes of the processor leave in `t`: the control register
/// selects the nametable; the first write to the scroll register gives the
/// column of tiles, and the column of pixels to the fine scroll; the
/// second gives the row of tiles and the row of pixels.
pub proof fn lemma_register_writes_set_the_fields(s: PpuState, rom: RomState, value: u8)
    ensures
        name_table_of(s.after_store_register(0x2000, value, rom).0.temporal_vram_address) == value
            & 0x3,
        s.register_first_store ==> coarse_x(
            s.after_store_register(0x2005, value, rom).0.temporal_vram_address,
        ) == value >> 3u8 && s.after_store_register(0x2005, value, rom).0.fine_x_scroll == value
            & 0x7 && !s.after_store_register(0x2005, value, rom).0.register_first_store,
        !s.register_first_store ==> coarse_y(
            s.after_store_register(0x2005, value, rom).0.temporal_vram_address,
        ) == value >> 3u8 && fine_y(
            s.after_store_register(0x2005, value, rom).0.temporal_vram_address,
        ) == value & 0x7 && s.after_store_register(0x2005, value, rom).0.register_first_store,
{
    lemma_register_write_bits(s.temporal_vram_address, value);
}

/// How many of the sprites from number `from` on lie on row `y`.
pub open spec fn sprites_on_line(oam: Seq<u8>, y: u8, height: u8, from: int) -> nat
    decreases 64 - from,
{
    if from >= 64 || from < 0 {
        0
    } else if sprite_at(oam, from as u8).on_spec(y, height) {
        1 + sprites_on_line(oam, y, height, from + 1)
    } else {
        sprites_on_line(oam, y, height, from + 1)
    }
}

/// The search for the sprites of a scanline sets the overflow flag where
/// more than eight sprites lie on the scanline, and only there.
pub proof fn lemma_overflow_counts_sprites(s: PpuState, rom: RomState, i: u8, n: u8)
    requires
        n <= 8,
        i <= 64,
    ensures
        s.after_sprite_scan(rom, i, n).ppustatus == if n + sprites_on_line(
            s.primary_oam,
            s.scanline as u8,
            s.sprite_height(),
            i as int,
        ) > 8 {
            s.ppustatus | 0x20
        } else {
            s.ppustatus
        },
    decreases 64 - i,
{
    if i < 64 {
        let sprite = sprite_at(s.primary_oam, i);
        let y = s.scanline as u8;
        let height = s.sprite_height();
        if sprite.on_spec(y, height) {
            if n < 8 {
                let painted = s.after_sprite_columns(
                    rom,
                    i,
                    sprite,
                    sprite.y_in_sprite_spec(y, height),
                    height,
                    0,
                );
                crate::ppu_state::lemma_sprite_columns_keep(
                    s,
                    rom,
                    i,
                    sprite,
                    sprite.y_in_sprite_spec(y, height),
                    height,
                    0,
                );
                lemma_overflow_counts_sprites(
                    PpuState { secondary_oam: with_sprite(painted.secondary_oam, n, sprite), ..painted },
                    rom,
                    (i + 1) as u8,
                    (n + 1) as u8,
                );
            }
        } else {
            lemma_overflow_counts_sprites(s, rom, (i + 1) as u8, n);
        }
    }
}

/// On dot 257 of a visible scanline the overflow flag is set where more
/// than eight of the 64 sprites lie on the scanline.
pub proof fn lemma_ninth_sprite_sets_overflow(s: PpuState, rom: RomState)
    ensures
        s.after_process_sprite_pixels(rom).ppustatus == if sprites_on_line(
            s.primary_oam,
            s.scanline as u8,
            s.sprite_height(),
            0,
        ) > 8 {
            s.ppustatus | 0x20
        } else {
            s.ppustatus
        },
{
    lemma_overflow_counts_sprites(
        PpuState { sprite_availables: Seq::new(256, |i: int| false), ..s },
        rom,
        0,
        0,
    );
}

/// A column that a sprite has taken is not taken again while the rest of
/// that sprite is looked at.
pub proof fn lemma_columns_first_wins(
    s: PpuState,
    rom: RomState,
    index: u8,
    sprite: Sprite,
    y_in_sprite: u8,
    height: u8,
    j: u8,
    x: int,
)
    requires
        s.wf(),
        0 <= x < 256,
        s.sprite_availables[x],
    ensures
        ({
            let t = s.after_sprite_columns(rom, index, sprite, y_in_sprite, height, j);
            &&& t.wf()
            &&& t.sprite_availables[x]
            &&& t.sprite_ids[x] == s.sprite_ids[x]
            &&& t.sprite_palette_addresses[x] == s.sprite_palette_addresses[x]
            &&& t.sprite_priorities[x] == s.sprite_priorities[x]
        }),
    decreases 8 - j,
{
    crate::ppu_state::lemma_sprite_columns_keep(s, rom, index, sprite, y_in_sprite, height, j);
    crate::ppu_state::lemma_sprite_columns_keep_lengths(
        s,
        rom,
        index,
        sprite,
        y_in_sprite,
        height,
        j,
    );
    if j >= 8 || sprite.byte3 + j >= 256 {
    } else {
        let column = sprite.byte3 + j;
        let x_in_sprite: u8 = if sprite.horizontal_flip_spec() {
            (7 - j) as u8
        } else {
            j
        };
        let lsb = s.sprite_pattern(rom, sprite, x_in_sprite, y_in_sprite, height);
        let next = if s.sprite_availables[column] || lsb == 0 {
            s
        } else {
            PpuState {
                sprite_availables: s.sprite_availables.update(column, true),
                sprite_palette_addresses: s.sprite_palette_addresses.update(
                    column,
                    (0x3F10 | ((sprite.palette_num_spec() as u16) << 2u8)) | lsb as u16,
                ),
                sprite_ids: s.sprite_ids.update(column, index),
                sprite_priorities: s.sprite_priorities.update(column, sprite.priority_spec()),
                ..s
            }
        };
        lemma_columns_first_wins(next, rom, index, sprite, y_in_sprite, height, (j + 1) as u8, x);
    }
}

/// Of the sprites that show a pixel in a column, the one with the lowest
/// number wins: a column that is taken keeps its sprite through the rest
/// of the search.
pub proof fn lemma_lowest_sprite_wins(s: PpuState, rom: RomState, i: u8, n: u8, x: int)
    requires
        s.wf(),
        n <= 8,
        0 <= x < 256,
        s.sprite_availables[x],
    ensures
        ({
            let t = s.after_sprite_scan(rom, i, n);
            &&& t.sprite_availables[x]
            &&& t.sprite_ids[x] == s.sprite_ids[x]
            &&& t.sprite_palette_addresses[x] == s.sprite_palette_addresses[x]
            &&& t.sprite_priorities[x] == s.sprite_priorities[x]
        }),
    decreases 64 - i,
{
    if i < 64 {
        let sprite = sprite_at(s.primary_oam, i);
        let y = s.scanline as u8;
        let height = s.sprite_height();
        if sprite.on_spec(y, height) {
            if n < 8 {
                let row = sprite.y_in_sprite_spec(y, height);
                let painted = s.after_sprite_columns(rom, i, sprite, row, height, 0);
                lemma_columns_first_wins(s, rom, i, sprite, row, height, 0, x);
                crate::ppu_state::lemma_sprite_columns_keep(s, rom, i, sprite, row, height, 0);
                lemma_lowest_sprite_wins(
                    PpuState { secondary_oam: with_sprite(painted.secondary_oam, n, sprite), ..painted },
                    rom,
                    (i + 1) as u8,
                    (n + 1) as u8,
                    x,
                );
            }
        } else {
            lemma_lowest_sprite_wins(s, rom, (i + 1) as u8, n, x);
        }
    }
}

} // verus!
