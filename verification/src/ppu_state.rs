//! What the picture processing unit holds, and how each of its operations
//! changes it.
//!
//! The unit runs on a grid of 341 dots by 262 scanlines: scanlines 0 to 239
//! are visible, 240 idles, 241 to 260 are the vertical blank, 261 prepares
//! the next frame.

use vstd::prelude::*;
use crate::display::DisplayEvent;
use crate::register::{shift_in_u16, with_lower_byte};
use crate::rom::{Mirrorings, RomState};
use crate::sprite::{sprite_at, with_sprite, Sprite};

verus! {

/// The colours of the console, by colour number.
pub const PALETTES: [u32; 64] = [
    0xff757575, 0xff8f1b27, 0xffab0000, 0xff9f0047, 0xff77008f, 0xff1300ab, 0xff0000a7, 0xff000b7f,
    0xff002f43, 0xff004700, 0xff005100, 0xff173f00, 0xff5f3f1b, 0xff000000, 0xff000000, 0xff000000,
    0xffbcbcbc, 0xffef7300, 0xffef3b23, 0xfff30083, 0xffbf00bf, 0xff5b00e7, 0xff002bdb, 0xff0f4fcb,
    0xff00738b, 0xff009700, 0xff00ab00, 0xff3b9300, 0xff8b8300, 0xff000000, 0xff000000, 0xff000000,
    0xffffffff, 0xffffbf3f, 0xffff975f, 0xfffd8ba7, 0xffff7bf7, 0xffb777ff, 0xff6377ff, 0xff3b9bff,
    0xff3fbff3, 0xff13d383, 0xff4bdf4f, 0xff98f858, 0xffdbeb00, 0xff000000, 0xff000000, 0xff000000,
    0xffffffff, 0xffffe7ab, 0xffffd7c7, 0xffffcbd7, 0xffffc7ff, 0xffdbc7ff, 0xffb3bfff, 0xffabdbff,
    0xffa3e7ff, 0xffa3ffe3, 0xffbff3ab, 0xffcfffb3, 0xfff3ff9f, 0xff000000, 0xff000000, 0xff000000,
];

pub const DOTS_PER_SCANLINE: u16 = 341;

/// Where in video memory an address of the nametable range lies, given the
/// mirroring: vertical keeps the tables at 0x2000 and 0x2400, horizontal
/// those at 0x2000 and 0x2800, a single screen only the first, four screens all.
pub open spec fn name_table_address(address: u16, mirroring: Mirrorings) -> u16 {
    let table = address & 0x2C00;
    (address & 0x3FF) | match mirroring {
        Mirrorings::SingleScreen => 0x2000u16,
        Mirrorings::Horizontal => if table == 0x2000 || table == 0x2400 {
            0x2000u16
        } else {
            0x2800u16
        },
        Mirrorings::Vertical => if table == 0x2000 || table == 0x2800 {
            0x2000u16
        } else {
            0x2400u16
        },
        Mirrorings::FourScreen => table,
    }
}

/// Where in palette memory an address of the palette range lies: the
/// palette has 32 entries, and entries 0x10, 0x14, 0x18 and 0x1C are the
/// entries 0x00, 0x04, 0x08 and 0x0C.
pub open spec fn palette_address(address: u16) -> u16 {
    let entry = address & 0x1F;
    if entry == 0x10 || entry == 0x14 || entry == 0x18 || entry == 0x1C {
        0x3F00 | (entry & 0x0F)
    } else {
        0x3F00 | entry
    }
}

/// Where in the 16 KiB of video memory a 14-bit address lies.
pub open spec fn vram_address(address: u16, mirroring: Mirrorings) -> u16 {
    if address <= 0x1FFF {
        address
    } else if address <= 0x3EFF {
        name_table_address(address & 0x2FFF, mirroring)
    } else {
        palette_address(address)
    }
}

/// The colour for a palette entry: its low six bits select the colour; in
/// greyscale only bits 5 and 4 count.
pub open spec fn palette_color(entry: u8, greyscale: bool) -> u32 {
    let mask = if greyscale {
        0x30u8
    } else {
        0x3Fu8
    };
    PALETTES[(entry & mask) as int] & 0xFFFFFF
}

/// What the picture processing unit holds.
pub struct PpuState {
    /// Frames completed, modulo 2^32.
    pub frame: u32,
    /// The dot within the scanline, 0 to 340.
    pub cycle: u16,
    /// The scanline, 0 to 261.
    pub scanline: u16,
    /// A read of the status register has come too close to the start of the
    /// vertical blank: the flag will not be set.
    pub suppress_vblank: bool,
    /// The next write to the scroll or address register is the first of two.
    pub register_first_store: bool,
    pub fine_x_scroll: u8,
    pub name_table_latch: u8,
    pub name_table: u8,
    pub pattern_table_low_latch: u8,
    pub pattern_table_high_latch: u8,
    pub pattern_table_low: u16,
    pub pattern_table_high: u16,
    pub attribute_table_low_latch: u8,
    pub attribute_table_high_latch: u8,
    pub attribute_table_low: u16,
    pub attribute_table_high: u16,
    /// The address register `v`, 15 bits.
    pub current_vram_address: u16,
    /// The address register `t`, 15 bits.
    pub temporal_vram_address: u16,
    pub vram_read_buffer: u8,
    /// 16 KiB of video memory.
    pub vram: Seq<u8>,
    /// For each column of the scanline: whether a sprite has a pixel there.
    pub sprite_availables: Seq<bool>,
    /// For each column: the number of the sprite that has it.
    pub sprite_ids: Seq<u8>,
    /// For each column: the palette address of the sprite pixel.
    pub sprite_palette_addresses: Seq<u16>,
    /// For each column: the priority bit of the sprite.
    pub sprite_priorities: Seq<u8>,
    /// 64 sprites.
    pub primary_oam: Seq<u8>,
    /// The up to 8 sprites of the scanline.
    pub secondary_oam: Seq<u8>,
    pub ppuctrl: u8,
    pub ppumask: u8,
    pub ppustatus: u8,
    pub oamaddr: u8,
    pub oamdata: u8,
    pub ppuscroll: u8,
    pub ppuaddr: u8,
    pub ppudata: u8,
    pub oamdma: u8,
    /// The byte last seen on the bus to the processor.
    pub data_bus: u8,
    pub nmi_interrupted: bool,
    pub irq_interrupted: bool,
    /// Every call made on the display.
    pub display: Seq<DisplayEvent>,
}

impl PpuState {
    pub open spec fn wf(self) -> bool {
        &&& self.cycle <= 340
        &&& self.scanline <= 261
        &&& self.current_vram_address < 0x8000
        &&& self.temporal_vram_address < 0x8000
        &&& self.vram.len() == 0x4000
        &&& self.sprite_availables.len() == 256
        &&& self.sprite_ids.len() == 256
        &&& self.sprite_palette_addresses.len() == 256
        &&& self.sprite_priorities.len() == 256
        &&& self.primary_oam.len() == 256
        &&& self.secondary_oam.len() == 32
    }

    /// The unit at power-on, before a display that has seen `display`.
    pub open spec fn initial(display: Seq<DisplayEvent>) -> PpuState {
        PpuState {
            frame: 0,
            cycle: 0,
            scanline: 0,
            suppress_vblank: false,
            register_first_store: true,
            fine_x_scroll: 0,
            name_table_latch: 0,
            name_table: 0,
            pattern_table_low_latch: 0,
            pattern_table_high_latch: 0,
            pattern_table_low: 0,
            pattern_table_high: 0,
            attribute_table_low_latch: 0,
            attribute_table_high_latch: 0,
            attribute_table_low: 0,
            attribute_table_high: 0,
            current_vram_address: 0,
            temporal_vram_address: 0,
            vram_read_buffer: 0,
            vram: Seq::new(0x4000, |i: int| 0u8),
            sprite_availables: Seq::new(256, |i: int| false),
            sprite_ids: Seq::new(256, |i: int| 0u8),
            sprite_palette_addresses: Seq::new(256, |i: int| 0u16),
            sprite_priorities: Seq::new(256, |i: int| 0u8),
            primary_oam: Seq::new(256, |i: int| 0u8),
            secondary_oam: Seq::new(32, |i: int| 0u8),
            ppuctrl: 0,
            ppumask: 0,
            ppustatus: 0,
            oamaddr: 0,
            oamdata: 0,
            ppuscroll: 0,
            ppuaddr: 0,
            ppudata: 0,
            oamdma: 0,
            data_bus: 0,
            nmi_interrupted: false,
            irq_interrupted: false,
            display,
        }
    }

    /// The dots since the start of the frame.
    pub open spec fn position(self) -> int {
        self.scanline * DOTS_PER_SCANLINE + self.cycle
    }

    // ---- the control register

    pub open spec fn nmi_enabled(self) -> bool {
        self.ppuctrl & 0x80 != 0
    }

    pub open spec fn sprite_height(self) -> u8 {
        if self.ppuctrl & 0x20 != 0 {
            16
        } else {
            8
        }
    }

    pub open spec fn background_pattern_table_base_address(self) -> u16 {
        if self.ppuctrl & 0x10 != 0 {
            0x1000
        } else {
            0
        }
    }

    pub open spec fn sprite_pattern_table_base_address(self) -> u16 {
        if self.ppuctrl & 0x08 != 0 {
            0x1000
        } else {
            0
        }
    }

    pub open spec fn increment_address_size(self) -> u8 {
        if self.ppuctrl & 0x04 != 0 {
            32
        } else {
            1
        }
    }

    // ---- the mask register

    pub open spec fn emphasis_blue(self) -> bool {
        self.ppumask & 0x80 != 0
    }

    pub open spec fn emphasis_green(self) -> bool {
        self.ppumask & 0x40 != 0
    }

    pub open spec fn emphasis_red(self) -> bool {
        self.ppumask & 0x20 != 0
    }

    pub open spec fn sprites_visible(self) -> bool {
        self.ppumask & 0x10 != 0
    }

    pub open spec fn background_visible(self) -> bool {
        self.ppumask & 0x08 != 0
    }

    pub open spec fn left_most_sprites_visible(self) -> bool {
        self.ppumask & 0x04 != 0
    }

    pub open spec fn left_most_background_visible(self) -> bool {
        self.ppumask & 0x02 != 0
    }

    pub open spec fn greyscale(self) -> bool {
        self.ppumask & 0x01 != 0
    }

    // ---- the status register

    pub open spec fn vblank(self) -> bool {
        self.ppustatus & 0x80 != 0
    }

    pub open spec fn zero_hit(self) -> bool {
        self.ppustatus & 0x40 != 0
    }

    pub open spec fn overflow(self) -> bool {
        self.ppustatus & 0x20 != 0
    }

    // ---- memory

    /// Whether an address is served by the cartridge's character banks.
    pub open spec fn on_cartridge(address: u16, rom: RomState) -> bool {
        (address & 0x3FFF) < 0x2000 && rom.has_chr_rom()
    }

    /// The byte at an address, wrapped to 14 bits.
    pub open spec fn load(self, address: u16, rom: RomState) -> u8 {
        if Self::on_cartridge(address, rom) {
            rom.load((address & 0x3FFF) as u32)
        } else {
            self.vram[vram_address(address & 0x3FFF, rom.mirroring_type()) as int]
        }
    }

    /// The unit and the cartridge after a write to an address, wrapped to
    /// 14 bits. A write into character banks goes to the mapper.
    pub open spec fn after_store(self, address: u16, value: u8, rom: RomState) -> (
        PpuState,
        RomState,
    ) {
        if Self::on_cartridge(address, rom) {
            (self, rom.after_store((address & 0x3FFF) as u32, value))
        } else {
            (
                PpuState {
                    vram: self.vram.update(
                        vram_address(address & 0x3FFF, rom.mirroring_type()) as int,
                        value,
                    ),
                    ..self
                },
                rom,
            )
        }
    }

    /// `v` after an access to the data register: up by 1 or 32, on 15 bits.
    pub open spec fn after_increment_vram_address(self) -> PpuState {
        let v = ((self.current_vram_address + self.increment_address_size()) as u16) & 0x7FFF;
        PpuState { current_vram_address: v, ppuaddr: (v as u8) & 0xFF, ..self }
    }

    // ---- the registers as the processor sees them

    /// The unit at power-on of the console: the status register reads 0x80.
    pub open spec fn after_bootup(self) -> PpuState {
        PpuState { ppustatus: 0x80, ..self }
    }

    /// The unit after the reset button.
    pub open spec fn after_reset(self) -> PpuState {
        PpuState {
            ppuctrl: 0,
            ppumask: 0,
            ppuscroll: 0,
            ppudata: 0,
            register_first_store: true,
            frame: 0,
            scanline: 0,
            cycle: 0,
            ..self
        }
    }

    /// What a read of the status register puts on the bus: the three flags
    /// above the low five bits of the bus.
    pub open spec fn status_on_bus(self) -> u8 {
        (self.ppustatus & 0xE0) | (self.data_bus & 0x1F)
    }

    /// The byte that a read of a register returns.
    pub open spec fn register_value(self, address: u16, rom: RomState) -> u8 {
        if address == 0x2002 {
            // on the first two dots of the vertical blank the flag reads as set
            if self.scanline == 241 && (self.cycle == 1 || self.cycle == 2) {
                self.status_on_bus() | 0x80
            } else {
                self.status_on_bus()
            }
        } else if address == 0x2004 {
            self.primary_oam[self.oamaddr as int]
        } else if address == 0x2007 {
            if (self.current_vram_address & 0x3FFF) <= 0x3EFF {
                self.vram_read_buffer
            } else {
                self.load(self.current_vram_address, rom)
            }
        } else {
            self.data_bus
        }
    }

    /// The unit after a read of a register.
    pub open spec fn after_load_register(self, address: u16, rom: RomState) -> PpuState {
        if address == 0x2002 {
            PpuState {
                ppustatus: self.ppustatus & !0x80u8,
                register_first_store: true,
                data_bus: self.status_on_bus(),
                suppress_vblank: self.suppress_vblank || (self.scanline == 241 && (self.cycle == 0
                    || self.cycle == 1)),
                ..self
            }
        } else if address == 0x2004 {
            PpuState { data_bus: self.register_value(address, rom), ..self }
        } else if address == 0x2007 {
            // a read in the palette refills the buffer from the nametable behind it
            let refill = if (self.current_vram_address & 0x3FFF) <= 0x3EFF {
                self.load(self.current_vram_address, rom)
            } else {
                self.load(self.current_vram_address & 0x2FFF, rom)
            };
            PpuState {
                vram_read_buffer: refill,
                data_bus: self.register_value(address, rom),
                ..self
            }.after_increment_vram_address()
        } else {
            self
        }
    }

    /// `t` after a write to the control register: bits 1 and 0 of the value
    /// become bits 11 and 10.
    pub open spec fn t_after_control(t: u16, value: u8) -> u16 {
        (t & 0xF3FF) | (((value as u16) & 0x3) << 10u8)
    }

    /// `t` after the first write to the scroll register: bits 7 to 3 of the
    /// value become bits 4 to 0.
    pub open spec fn t_after_scroll_x(t: u16, value: u8) -> u16 {
        (t & 0xFFE0) | (((value as u16) >> 3u8) & 0x1F)
    }

    /// `t` after the second write to the scroll register: bits 7 to 3 of the
    /// value become bits 9 to 5, bits 2 to 0 become bits 14 to 12.
    pub open spec fn t_after_scroll_y(t: u16, value: u8) -> u16 {
        ((t & 0x8C1F) | (((value as u16) & 0xF8) << 2u8)) | (((value as u16) & 0x7) << 12u8)
    }

    /// `t` after the first write to the address register: bits 5 to 0 of the
    /// value become bits 13 to 8, bit 14 is cleared.
    pub open spec fn t_after_address_high(t: u16, value: u8) -> u16 {
        (t & 0x00FF) | (((value as u16) & 0x3F) << 8u8)
    }

    /// `t` after the second write to the address register: the value
    /// becomes bits 7 to 0.
    pub open spec fn t_after_address_low(t: u16, value: u8) -> u16 {
        (t & 0xFF00) | (value as u16)
    }

    /// The unit and the cartridge after a write to a register.
    pub open spec fn after_store_register(self, address: u16, value: u8, rom: RomState) -> (
        PpuState,
        RomState,
    ) {
        let s = PpuState { data_bus: value, ..self };
        if address == 0x2000 {
            (
                PpuState {
                    ppuctrl: value,
                    // enabling the interrupt during the vertical blank raises it at once
                    nmi_interrupted: s.nmi_interrupted || (s.vblank() && !s.nmi_enabled() && value
                        & 0x80 != 0),
                    temporal_vram_address: Self::t_after_control(s.temporal_vram_address, value),
                    ..s
                },
                rom,
            )
        } else if address == 0x2001 {
            (PpuState { ppumask: value, ..s }, rom)
        } else if address == 0x2003 {
            (PpuState { oamaddr: value, ..s }, rom)
        } else if address == 0x2004 {
            (
                PpuState {
                    oamdata: value,
                    primary_oam: s.primary_oam.update(s.oamaddr as int, value),
                    oamaddr: s.oamaddr.wrapping_add(1),
                    ..s
                },
                rom,
            )
        } else if address == 0x2005 {
            if s.register_first_store {
                (
                    PpuState {
                        ppuscroll: value,
                        fine_x_scroll: value & 0x7,
                        temporal_vram_address: Self::t_after_scroll_x(
                            s.temporal_vram_address,
                            value,
                        ),
                        register_first_store: false,
                        ..s
                    },
                    rom,
                )
            } else {
                (
                    PpuState {
                        ppuscroll: value,
                        temporal_vram_address: Self::t_after_scroll_y(
                            s.temporal_vram_address,
                            value,
                        ),
                        register_first_store: true,
                        ..s
                    },
                    rom,
                )
            }
        } else if address == 0x2006 {
            if s.register_first_store {
                (
                    PpuState {
                        temporal_vram_address: Self::t_after_address_high(
                            s.temporal_vram_address,
                            value,
                        ),
                        register_first_store: false,
                        ..s
                    },
                    rom,
                )
            } else {
                (
                    PpuState {
                        ppuaddr: value,
                        temporal_vram_address: Self::t_after_address_low(
                            s.temporal_vram_address,
                            value,
                        ),
                        current_vram_address: Self::t_after_address_low(
                            s.temporal_vram_address,
                            value,
                        ),
                        register_first_store: true,
                        ..s
                    },
                    rom,
                )
            }
        } else if address == 0x2007 {
            let (stored, cartridge) = (PpuState { ppudata: value, ..s }).after_store(
                s.current_vram_address,
                value,
                rom,
            );
            (stored.after_increment_vram_address(), cartridge)
        } else if address == 0x4014 {
            (PpuState { oamdma: value, ..s }, rom)
        } else {
            (s, rom)
        }
    }

    // ---- the picture

    /// The palette address of the background pixel under the beam: bit
    /// `15 - fine_x` of the four shift registers, attribute bits above
    /// pattern bits.
    pub open spec fn background_palette_address(self) -> u16 {
        let pos = (15 - (self.fine_x_scroll & 0xF)) as u8;
        let offset = (((((self.attribute_table_high >> pos) & 1) as u8) << 3u8) | ((((
        self.attribute_table_low >> pos) & 1) as u8) << 2u8)) | ((((self.pattern_table_high >> pos)
            & 1) as u8) << 1u8) | (((self.pattern_table_low >> pos) & 1) as u8);
        (0x3F00 + offset) as u16
    }

    /// Whether the background shows no pixel at column `x`.
    pub open spec fn background_pixel_zero(self, x: u16) -> bool {
        let visible = self.background_visible() && (self.left_most_background_visible() || x >= 8);
        !visible || (self.background_palette_address() & 0x3) == 0
    }

    /// Whether the sprites show no pixel at column `x`.
    pub open spec fn sprite_pixel_zero(self, x: u16) -> bool {
        let visible = self.sprites_visible() && (self.left_most_sprites_visible() || x >= 8);
        !visible || !self.sprite_availables[x as int] || (self.sprite_palette_addresses[x as int]
            & 0x3) == 0
    }

    /// The palette address of the pixel at column `x`: the sprite's where
    /// only the sprite shows or where both show and the sprite is in front,
    /// the background's where it shows otherwise, else the backdrop.
    pub open spec fn pixel_palette_address(self, x: u16) -> u16 {
        if self.background_pixel_zero(x) {
            if self.sprite_pixel_zero(x) {
                0x3F00
            } else {
                self.sprite_palette_addresses[x as int]
            }
        } else if self.sprite_pixel_zero(x) {
            self.background_palette_address()
        } else if self.sprite_priorities[x as int] == 0 {
            self.sprite_palette_addresses[x as int]
        } else {
            self.background_palette_address()
        }
    }

    /// A colour with the emphasised parts at full strength.
    pub open spec fn emphasis_color(self, c: u32) -> u32 {
        let c1 = if self.emphasis_red() {
            c | 0x00FF0000
        } else {
            c
        };
        let c2 = if self.emphasis_green() {
            c1 | 0x0000FF00
        } else {
            c1
        };
        if self.emphasis_blue() {
            c2 | 0x000000FF
        } else {
            c2
        }
    }

    /// The colour of the pixel at column `x`.
    pub open spec fn pixel_color(self, x: u16, rom: RomState) -> u32 {
        self.emphasis_color(
            palette_color(self.load(self.pixel_palette_address(x), rom), self.greyscale()),
        )
    }

    /// Whether sprite 0 and the background both show a pixel at column `x`.
    /// Column 255 never counts.
    pub open spec fn sprite_zero_hits(self, x: u16) -> bool {
        self.sprite_ids[x as int] == 0 && !self.sprite_pixel_zero(x) && !self.background_pixel_zero(
            x,
        ) && x != 255
    }

    /// On dots 1 to 256 of a visible scanline one pixel goes to the display.
    pub open spec fn renders(self) -> bool {
        1 <= self.cycle <= 256 && self.scanline < 240
    }

    pub open spec fn after_render_pixel(self, rom: RomState) -> PpuState {
        if self.renders() {
            let x = ((self.cycle - 1) % 256) as u16;
            PpuState {
                ppustatus: if self.sprite_zero_hits(x) {
                    self.ppustatus | 0x40
                } else {
                    self.ppustatus
                },
                display: self.display.push(
                    DisplayEvent::Pixel { x, y: self.scanline, c: self.pixel_color(x, rom) },
                ),
                ..self
            }
        } else {
            self
        }
    }

    /// Whether the scanline fetches and shifts: all but 240 to 260.
    pub open spec fn fetching_scanline(self) -> bool {
        !(240 <= self.scanline <= 260)
    }

    pub open spec fn after_shift_registers(self) -> PpuState {
        if self.fetching_scanline() && ((1 <= self.cycle <= 256) || (329 <= self.cycle <= 336)) {
            PpuState {
                pattern_table_low: shift_in_u16(self.pattern_table_low, 0),
                pattern_table_high: shift_in_u16(self.pattern_table_high, 0),
                attribute_table_low: shift_in_u16(self.attribute_table_low, 0),
                attribute_table_high: shift_in_u16(self.attribute_table_high, 0),
                ..self
            }
        } else {
            self
        }
    }

    /// The address of the nametable byte that `v` points at.
    pub open spec fn name_table_fetch_address(self) -> u16 {
        0x2000 | (self.current_vram_address & 0x0FFF)
    }

    /// The address of the attribute byte that `v` points at.
    pub open spec fn attribute_fetch_address(self) -> u16 {
        let v = self.current_vram_address;
        ((0x23C0 | (v & 0x0C00)) | ((v >> 4u8) & 0x38)) | ((v >> 2u8) & 0x07)
    }

    /// The two palette bits of the tile that `v` points at: an attribute
    /// byte holds them for four quadrants of two by two tiles.
    pub open spec fn attribute_bits(self, rom: RomState) -> u8 {
        let v = self.current_vram_address;
        let coarse_y = (v >> 5u8) & 0x1F;
        let coarse_x = v & 0x1F;
        let is_bottom = (coarse_y & 0x3) >= 2;
        let is_right = (coarse_x & 0x3) >= 2;
        let pos: u8 = if is_bottom {
            if is_right {
                6
            } else {
                4
            }
        } else {
            if is_right {
                2
            } else {
                0
            }
        };
        (self.load(self.attribute_fetch_address(), rom) >> pos) & 0x3
    }

    /// The address of the low pattern byte of the tile row that `v` points at.
    pub open spec fn pattern_fetch_address(self) -> u16 {
        let fine_scroll_y = (self.current_vram_address >> 12u8) & 0x7;
        (self.background_pattern_table_base_address() + ((self.name_table as u16) << 4u8)
            + fine_scroll_y) as u16
    }

    pub open spec fn after_fetch_name_table(self, rom: RomState) -> PpuState {
        PpuState { name_table_latch: self.load(self.name_table_fetch_address(), rom), ..self }
    }

    pub open spec fn after_fetch_attribute_table(self, rom: RomState) -> PpuState {
        PpuState {
            attribute_table_high_latch: if self.attribute_bits(rom) & 2 == 2 {
                0xff
            } else {
                0
            },
            attribute_table_low_latch: if self.attribute_bits(rom) & 1 == 1 {
                0xff
            } else {
                0
            },
            ..self
        }
    }

    pub open spec fn after_fetch_pattern_table_low(self, rom: RomState) -> PpuState {
        PpuState { pattern_table_low_latch: self.load(self.pattern_fetch_address(), rom), ..self }
    }

    pub open spec fn after_fetch_pattern_table_high(self, rom: RomState) -> PpuState {
        PpuState {
            pattern_table_high_latch: self.load((self.pattern_fetch_address() + 8) as u16, rom),
            ..self
        }
    }

    /// On dots 1 to 256 and 321 to 336 of a fetching scanline, in each block
    /// of eight dots: the nametable byte, the attribute byte, the low and
    /// the high pattern byte. With the nametable byte the latches go into
    /// the low bytes of the shift registers.
    pub open spec fn after_fetch(self, rom: RomState) -> PpuState {
        if !self.fetching_scanline() || self.cycle == 0 || (257 <= self.cycle <= 320) || self.cycle
            >= 337 {
            self
        } else {
            let phase = (self.cycle - 1) % 8;
            if phase == 0 {
                let fetched = self.after_fetch_name_table(rom);
                PpuState {
                    name_table: fetched.name_table_latch,
                    attribute_table_low: with_lower_byte(
                        fetched.attribute_table_low,
                        fetched.attribute_table_low_latch,
                    ),
                    attribute_table_high: with_lower_byte(
                        fetched.attribute_table_high,
                        fetched.attribute_table_high_latch,
                    ),
                    pattern_table_low: with_lower_byte(
                        fetched.pattern_table_low,
                        fetched.pattern_table_low_latch,
                    ),
                    pattern_table_high: with_lower_byte(
                        fetched.pattern_table_high,
                        fetched.pattern_table_high_latch,
                    ),
                    ..fetched
                }
            } else if phase == 2 {
                self.after_fetch_attribute_table(rom)
            } else if phase == 4 {
                self.after_fetch_pattern_table_low(rom)
            } else if phase == 6 {
                self.after_fetch_pattern_table_high(rom)
            } else {
                self
            }
        }
    }

    // ---- sprites

    /// The address of the low pattern byte of a row of a sprite. Sprites of
    /// height 16 take their table from bit 0 of the tile number and span
    /// two tiles.
    pub open spec fn sprite_pattern_address(self, s: Sprite, y_in_sprite: u8, height: u8) -> u16 {
        if height == 8 {
            (self.sprite_pattern_table_base_address() + s.byte1 as u16 * 0x10 + y_in_sprite as u16)
                as u16
        } else {
            ((s.byte1 as u16 & 1) * 0x1000 + (s.byte1 as u16 & 0xFE) * 0x10 + (((y_in_sprite % 8) + ((
            y_in_sprite & 0x8) << 1u8)) as u8) as u16) as u16
        }
    }

    /// The two pattern bits of a pixel of a sprite; zero is transparent.
    pub open spec fn sprite_pattern(
        self,
        rom: RomState,
        s: Sprite,
        x_in_sprite: u8,
        y_in_sprite: u8,
        height: u8,
    ) -> u8 {
        let address = self.sprite_pattern_address(s, y_in_sprite, height);
        let lower_bits = self.load(address, rom);
        let higher_bits = self.load((address + 8) as u16, rom);
        let pos = (7 - x_in_sprite) as u8;
        (((higher_bits >> pos) & 1) << 1u8) | ((lower_bits >> pos) & 1)
    }

    /// The column arrays after columns `j` to 7 of a sprite have been
    /// looked at: a column is taken where no earlier sprite has it and the
    /// pixel is not transparent.
    pub open spec fn after_sprite_columns(
        self,
        rom: RomState,
        index: u8,
        s: Sprite,
        y_in_sprite: u8,
        height: u8,
        j: u8,
    ) -> PpuState
        decreases 8 - j,
    {
        if j >= 8 || s.byte3 + j >= 256 {
            self
        } else {
            let x = s.byte3 + j;
            let x_in_sprite: u8 = if s.horizontal_flip_spec() {
                (7 - j) as u8
            } else {
                j
            };
            let lsb = self.sprite_pattern(rom, s, x_in_sprite, y_in_sprite, height);
            let next = if self.sprite_availables[x] || lsb == 0 {
                self
            } else {
                PpuState {
                    sprite_availables: self.sprite_availables.update(x, true),
                    sprite_palette_addresses: self.sprite_palette_addresses.update(
                        x,
                        (0x3F10 | ((s.palette_num_spec() as u16) << 2u8)) | lsb as u16,
                    ),
                    sprite_ids: self.sprite_ids.update(x, index),
                    sprite_priorities: self.sprite_priorities.update(x, s.priority_spec()),
                    ..self
                }
            };
            next.after_sprite_columns(rom, index, s, y_in_sprite, height, (j + 1) as u8)
        }
    }

    /// The unit after sprites `i` to 63 have been looked at, `n` sprites
    /// having been found on the scanline before: up to eight sprites on the
    /// scanline are painted into the column arrays and copied to secondary
    /// memory; a ninth sets the overflow flag and ends the search.
    pub open spec fn after_sprite_scan(self, rom: RomState, i: u8, n: u8) -> PpuState
        decreases 64 - i,
    {
        if i >= 64 {
            self
        } else {
            let s = sprite_at(self.primary_oam, i);
            let y = self.scanline as u8;
            let height = self.sprite_height();
            if s.on_spec(y, height) {
                if n >= 8 {
                    PpuState { ppustatus: self.ppustatus | 0x20, ..self }
                } else {
                    let painted = self.after_sprite_columns(
                        rom,
                        i,
                        s,
                        s.y_in_sprite_spec(y, height),
                        height,
                        0,
                    );
                    PpuState {
                        secondary_oam: with_sprite(painted.secondary_oam, n, s),
                        ..painted
                    }.after_sprite_scan(rom, (i + 1) as u8, (n + 1) as u8)
                }
            } else {
                self.after_sprite_scan(rom, (i + 1) as u8, n)
            }
        }
    }

    pub open spec fn after_process_sprite_pixels(self, rom: RomState) -> PpuState {
        PpuState { sprite_availables: Seq::new(256, |i: int| false), ..self }.after_sprite_scan(
            rom,
            0,
            0,
        )
    }

    /// On dot 1 of a visible scanline secondary memory is filled with 0xFF,
    /// on dot 257 the sprites of the scanline are found. On dots 257 to 320
    /// of a fetching scanline the sprite address is zero.
    pub open spec fn after_evaluate_sprites(self, rom: RomState) -> PpuState {
        let s = if (self.scanline < 240 || self.scanline == 261) && 257 <= self.cycle <= 320 {
            PpuState { oamaddr: 0, ..self }
        } else {
            self
        };
        if s.scanline >= 240 {
            s
        } else if s.cycle == 1 {
            PpuState { secondary_oam: Seq::new(32, |i: int| 0xffu8), ..s }
        } else if s.cycle == 257 {
            s.after_process_sprite_pixels(rom)
        } else {
            s
        }
    }

    // ---- flags and interrupts

    /// Whether the dot ticks the mapper's scanline counter: dot 340 of
    /// scanlines 0 to 240 while the background shows.
    pub open spec fn ticks_mapper(self) -> bool {
        self.cycle == 340 && self.scanline <= 240 && self.background_visible()
    }

    /// Dot 1 of scanline 241 sets the vertical blank flag, unless
    /// suppressed, and tells the display that the frame is complete; dot 20
    /// raises the interrupt where the flag is set and the interrupt enabled.
    /// Dot 1 of scanline 261 clears the three flags.
    pub open spec fn after_update_flags(self, rom: RomState) -> (PpuState, RomState) {
        let marked = if self.cycle == 1 && self.scanline == 241 {
            PpuState {
                ppustatus: if self.suppress_vblank {
                    self.ppustatus
                } else {
                    self.ppustatus | 0x80
                },
                suppress_vblank: false,
                display: self.display.push(DisplayEvent::Vblank),
                ..self
            }
        } else if self.cycle == 1 && self.scanline == 261 {
            PpuState { ppustatus: ((self.ppustatus & !0x80u8) & !0x40u8) & !0x20u8, ..self }
        } else {
            self
        };
        let raised = if marked.cycle == 20 && marked.scanline == 241 && marked.vblank() && marked.nmi_enabled() {
            PpuState { nmi_interrupted: true, ..marked }
        } else {
            marked
        };
        if raised.ticks_mapper() {
            (
                PpuState { irq_interrupted: raised.irq_interrupted || rom.irq_on_tick(), ..raised },
                rom.after_irq_tick(),
            )
        } else {
            (raised, rom)
        }
    }

    // ---- scrolling

    /// `v` with the column of tiles moved right by one; after column 31
    /// comes column 0 of the horizontal neighbour.
    pub open spec fn v_after_coarse_x(v: u16) -> u16 {
        if (v & 0x1F) == 31 {
            (v & !0x1Fu16) ^ 0x400
        } else {
            (v + 1) as u16
        }
    }

    /// `v` with the row of pixels moved down by one; after the last pixel
    /// row of tile row 29 comes tile row 0 of the vertical neighbour, after
    /// that of tile row 31 tile row 0 of the same nametable.
    pub open spec fn v_after_y(v: u16) -> u16 {
        if (v & 0x7000) != 0x7000 {
            (v + 0x1000) as u16
        } else {
            let cleared = v & !0x7000u16;
            let y = (cleared & 0x3E0) >> 5u8;
            if y == 29 {
                ((cleared ^ 0x800) & !0x3E0u16) | (0u16 << 5u8)
            } else if y == 31 {
                (cleared & !0x3E0u16) | (0u16 << 5u8)
            } else {
                (cleared & !0x3E0u16) | (((y + 1) as u16) << 5u8)
            }
        }
    }

    /// `v` with the horizontal bits of `t`.
    pub open spec fn v_with_horizontal(v: u16, t: u16) -> u16 {
        (v & !0x41Fu16) | (t & 0x41F)
    }

    /// `v` with the vertical bits of `t`.
    pub open spec fn v_with_vertical(v: u16, t: u16) -> u16 {
        (v & !0x7BE0u16) | (t & 0x7BE0)
    }

    /// While background or sprites show, on a fetching scanline: dots 280
    /// to 304 of scanline 261 copy the vertical bits of `t`; every eighth
    /// dot from 8 to 256 and from 328 to 336 moves `v` right; dot 256 moves
    /// it down; dot 257 copies the horizontal bits of `t`.
    pub open spec fn after_countup_scroll_counters(self) -> PpuState {
        if (!self.background_visible() && !self.sprites_visible()) || !self.fetching_scanline() {
            self
        } else {
            let v0 = if self.scanline == 261 && 280 <= self.cycle <= 304 {
                Self::v_with_vertical(self.current_vram_address, self.temporal_vram_address)
            } else {
                self.current_vram_address
            };
            if self.cycle == 0 || (258 <= self.cycle <= 320) {
                PpuState { current_vram_address: v0, ..self }
            } else {
                let v1 = if self.cycle % 8 == 0 {
                    Self::v_after_coarse_x(v0)
                } else {
                    v0
                };
                let v2 = if self.cycle == 256 {
                    Self::v_after_y(v1)
                } else if self.cycle == 257 {
                    Self::v_with_horizontal(v1, self.temporal_vram_address)
                } else {
                    v1
                };
                PpuState { current_vram_address: v2, ..self }
            }
        }
    }

    /// One dot on: after dot 340 comes dot 0 of the next scanline, after
    /// scanline 261 scanline 0 of the next frame.
    pub open spec fn after_countup_cycle(self) -> PpuState {
        if self.cycle < 340 {
            PpuState { cycle: (self.cycle + 1) as u16, ..self }
        } else if self.scanline < 261 {
            PpuState { cycle: 0, scanline: (self.scanline + 1) as u16, ..self }
        } else {
            PpuState { cycle: 0, scanline: 0, frame: self.frame.wrapping_add(1), ..self }
        }
    }

    /// The unit and the cartridge after one dot.
    #[verifier::opaque]
    pub open spec fn after_step(self, rom: RomState) -> (PpuState, RomState) {
        let (flagged, cartridge) = self.after_render_pixel(rom).after_shift_registers().after_fetch(
            rom,
        ).after_evaluate_sprites(rom).after_update_flags(rom);
        (flagged.after_countup_scroll_counters().after_countup_cycle(), cartridge)
    }

    /// The unit and the cartridge after `n` dots.
    pub open spec fn after_steps(self, rom: RomState, n: nat) -> (PpuState, RomState)
        decreases n,
    {
        if n == 0 {
            (self, rom)
        } else {
            let (s, r) = self.after_steps(rom, (n - 1) as nat);
            s.after_step(r)
        }
    }
}

/// The dots of a frame.
pub const DOTS_PER_FRAME: u32 = 89342;

proof fn lemma_overflow_flag_bits(status: u8)
    by (bit_vector)
    ensures
        (status | 0x20) & 0x40 == status & 0x40,
        (status | 0x80) & 0x40 == status & 0x40,
        (status & !0x80u8) & 0x40 == status & 0x40,
        (status | 0x40) & 0x40 != 0,
        (((status & !0x80u8) & !0x40u8) & !0x20u8) & 0x40 == 0,
{
}

/// Looking at a sprite changes nothing but the column arrays.
pub proof fn lemma_sprite_columns_keep(
    s: PpuState,
    rom: RomState,
    index: u8,
    sprite: Sprite,
    y_in_sprite: u8,
    height: u8,
    j: u8,
)
    ensures
        s.after_sprite_columns(rom, index, sprite, y_in_sprite, height, j) == (PpuState {
            sprite_availables: s.after_sprite_columns(
                rom,
                index,
                sprite,
                y_in_sprite,
                height,
                j,
            ).sprite_availables,
            sprite_ids: s.after_sprite_columns(rom, index, sprite, y_in_sprite, height, j).sprite_ids,
            sprite_palette_addresses: s.after_sprite_columns(
                rom,
                index,
                sprite,
                y_in_sprite,
                height,
                j,
            ).sprite_palette_addresses,
            sprite_priorities: s.after_sprite_columns(
                rom,
                index,
                sprite,
                y_in_sprite,
                height,
                j,
            ).sprite_priorities,
            ..s
        }),
    decreases 8 - j,
{
    if j >= 8 || sprite.byte3 + j >= 256 {
    } else {
        let x = sprite.byte3 + j;
        let x_in_sprite: u8 = if sprite.horizontal_flip_spec() {
            (7 - j) as u8
        } else {
            j
        };
        let lsb = s.sprite_pattern(rom, sprite, x_in_sprite, y_in_sprite, height);
        let next = if s.sprite_availables[x] || lsb == 0 {
            s
        } else {
            PpuState {
                sprite_availables: s.sprite_availables.update(x, true),
                sprite_palette_addresses: s.sprite_palette_addresses.update(
                    x,
                    (0x3F10 | ((sprite.palette_num_spec() as u16) << 2u8)) | lsb as u16,
                ),
                sprite_ids: s.sprite_ids.update(x, index),
                sprite_priorities: s.sprite_priorities.update(x, sprite.priority_spec()),
                ..s
            }
        };
        lemma_sprite_columns_keep(next, rom, index, sprite, y_in_sprite, height, (j + 1) as u8);
    }
}

/// Finding the sprites of a scanline changes nothing but the column
/// arrays, secondary sprite memory and the overflow flag.
pub proof fn lemma_sprite_scan_keeps(s: PpuState, rom: RomState, i: u8, n: u8)
    ensures
        s.after_sprite_scan(rom, i, n) == (PpuState {
            sprite_availables: s.after_sprite_scan(rom, i, n).sprite_availables,
            sprite_ids: s.after_sprite_scan(rom, i, n).sprite_ids,
            sprite_palette_addresses: s.after_sprite_scan(rom, i, n).sprite_palette_addresses,
            sprite_priorities: s.after_sprite_scan(rom, i, n).sprite_priorities,
            secondary_oam: s.after_sprite_scan(rom, i, n).secondary_oam,
            ppustatus: s.after_sprite_scan(rom, i, n).ppustatus,
            ..s
        }),
        s.after_sprite_scan(rom, i, n).ppustatus & 0x40 == s.ppustatus & 0x40,
    decreases 64 - i,
{
    lemma_overflow_flag_bits(s.ppustatus);
    if i >= 64 {
    } else {
        let sprite = sprite_at(s.primary_oam, i);
        let y = s.scanline as u8;
        let height = s.sprite_height();
        if sprite.on_spec(y, height) {
            if n >= 8 {
            } else {
                let painted = s.after_sprite_columns(
                    rom,
                    i,
                    sprite,
                    sprite.y_in_sprite_spec(y, height),
                    height,
                    0,
                );
                lemma_sprite_columns_keep(
                    s,
                    rom,
                    i,
                    sprite,
                    sprite.y_in_sprite_spec(y, height),
                    height,
                    0,
                );
                lemma_sprite_scan_keeps(
                    PpuState { secondary_oam: with_sprite(painted.secondary_oam, n, sprite), ..painted },
                    rom,
                    (i + 1) as u8,
                    (n + 1) as u8,
                );
            }
        } else {
            lemma_sprite_scan_keeps(s, rom, (i + 1) as u8, n);
        }
    }
}

/// A dot moves the clock on by one and nothing else does: every scanline
/// has 341 dots, every frame 262 scanlines.
pub proof fn lemma_step_moves_clock(s: PpuState, rom: RomState)
    requires
        s.wf(),
    ensures
        s.after_step(rom).0.cycle == s.after_countup_cycle().cycle,
        s.after_step(rom).0.scanline == s.after_countup_cycle().scanline,
        s.after_step(rom).0.frame == s.after_countup_cycle().frame,
        s.position() + 1 < DOTS_PER_FRAME ==> s.after_step(rom).0.frame == s.frame && s.after_step(
            rom,
        ).0.position() == s.position() + 1,
        s.position() + 1 >= DOTS_PER_FRAME ==> s.after_step(rom).0.frame == s.frame.wrapping_add(1)
            && s.after_step(rom).0.position() == 0,
{
    reveal(PpuState::after_step);
    let fetched = s.after_render_pixel(rom).after_shift_registers().after_fetch(rom);
    let cleared = PpuState { sprite_availables: Seq::new(256, |i: int| false), ..fetched };
    let addressed = PpuState { oamaddr: 0, ..fetched };
    let cleared_addressed = PpuState {
        sprite_availables: Seq::new(256, |i: int| false),
        ..addressed
    };
    lemma_sprite_scan_keeps(cleared, rom, 0, 0);
    lemma_sprite_scan_keeps(cleared_addressed, rom, 0, 0);
}

/// A dot leaves the unit in order.
pub proof fn lemma_step_keeps_wf(s: PpuState, rom: RomState)
    requires
        s.wf(),
    ensures
        s.after_step(rom).0.wf(),
{
    reveal(PpuState::after_step);
    let rendered = s.after_render_pixel(rom);
    let fetched = rendered.after_shift_registers().after_fetch(rom);
    let cleared = PpuState { sprite_availables: Seq::new(256, |i: int| false), ..fetched };
    let addressed = PpuState { oamaddr: 0, ..fetched };
    let cleared_addressed = PpuState {
        sprite_availables: Seq::new(256, |i: int| false),
        ..addressed
    };
    lemma_sprite_scan_keeps_lengths(cleared, rom, 0, 0);
    lemma_sprite_scan_keeps_lengths(cleared_addressed, rom, 0, 0);
    lemma_sprite_scan_keeps(cleared, rom, 0, 0);
    lemma_sprite_scan_keeps(cleared_addressed, rom, 0, 0);
    let evaluated = fetched.after_evaluate_sprites(rom);
    let flagged = evaluated.after_update_flags(rom).0;
    crate::ppu::lemma_address_registers(
        flagged.current_vram_address,
        flagged.temporal_vram_address,
        0,
    );
    let v0 = PpuState::v_with_vertical(flagged.current_vram_address, flagged.temporal_vram_address);
    crate::ppu::lemma_address_registers(v0, flagged.temporal_vram_address, 0);
    crate::ppu::lemma_address_registers(
        PpuState::v_after_coarse_x(v0),
        flagged.temporal_vram_address,
        0,
    );
    crate::ppu::lemma_address_registers(
        PpuState::v_after_coarse_x(flagged.current_vram_address),
        flagged.temporal_vram_address,
        0,
    );
    lemma_v_after_y_in_range(PpuState::v_after_coarse_x(v0));
    lemma_v_after_y_in_range(PpuState::v_after_coarse_x(flagged.current_vram_address));
    lemma_v_after_y_in_range(v0);
    lemma_v_after_y_in_range(flagged.current_vram_address);
}

proof fn lemma_v_after_y_in_range(v: u16)
    by (bit_vector)
    requires
        v < 0x8000,
    ensures
        PpuState::v_after_y(v) < 0x8000,
{
}

/// Finding the sprites of a scanline keeps the lengths of the column
/// arrays and of secondary sprite memory.
pub proof fn lemma_sprite_scan_keeps_lengths(s: PpuState, rom: RomState, i: u8, n: u8)
    requires
        s.sprite_availables.len() == 256,
        s.sprite_ids.len() == 256,
        s.sprite_palette_addresses.len() == 256,
        s.sprite_priorities.len() == 256,
        s.secondary_oam.len() == 32,
        n <= 8,
    ensures
        s.after_sprite_scan(rom, i, n).sprite_availables.len() == 256,
        s.after_sprite_scan(rom, i, n).sprite_ids.len() == 256,
        s.after_sprite_scan(rom, i, n).sprite_palette_addresses.len() == 256,
        s.after_sprite_scan(rom, i, n).sprite_priorities.len() == 256,
        s.after_sprite_scan(rom, i, n).secondary_oam.len() == 32,
    decreases 64 - i,
{
    if i >= 64 {
    } else {
        let sprite = sprite_at(s.primary_oam, i);
        let y = s.scanline as u8;
        let height = s.sprite_height();
        if sprite.on_spec(y, height) {
            if n >= 8 {
            } else {
                let painted = s.after_sprite_columns(
                    rom,
                    i,
                    sprite,
                    sprite.y_in_sprite_spec(y, height),
                    height,
                    0,
                );
                lemma_sprite_columns_keep_lengths(
                    s,
                    rom,
                    i,
                    sprite,
                    sprite.y_in_sprite_spec(y, height),
                    height,
                    0,
                );
                lemma_sprite_columns_keep(
                    s,
                    rom,
                    i,
                    sprite,
                    sprite.y_in_sprite_spec(y, height),
                    height,
                    0,
                );
                lemma_sprite_scan_keeps_lengths(
                    PpuState { secondary_oam: with_sprite(painted.secondary_oam, n, sprite), ..painted },
                    rom,
                    (i + 1) as u8,
                    (n + 1) as u8,
                );
            }
        } else {
            lemma_sprite_scan_keeps_lengths(s, rom, (i + 1) as u8, n);
        }
    }
}

/// Looking at a sprite keeps the lengths of the column arrays.
pub proof fn lemma_sprite_columns_keep_lengths(
    s: PpuState,
    rom: RomState,
    index: u8,
    sprite: Sprite,
    y_in_sprite: u8,
    height: u8,
    j: u8,
)
    requires
        s.sprite_availables.len() == 256,
        s.sprite_ids.len() == 256,
        s.sprite_palette_addresses.len() == 256,
        s.sprite_priorities.len() == 256,
    ensures
        s.after_sprite_columns(rom, index, sprite, y_in_sprite, height, j).sprite_availables.len()
            == 256,
        s.after_sprite_columns(rom, index, sprite, y_in_sprite, height, j).sprite_ids.len() == 256,
        s.after_sprite_columns(
            rom,
            index,
            sprite,
            y_in_sprite,
            height,
            j,
        ).sprite_palette_addresses.len() == 256,
        s.after_sprite_columns(rom, index, sprite, y_in_sprite, height, j).sprite_priorities.len()
            == 256,
    decreases 8 - j,
{
    if j >= 8 || sprite.byte3 + j >= 256 {
    } else {
        let x = sprite.byte3 + j;
        let x_in_sprite: u8 = if sprite.horizontal_flip_spec() {
            (7 - j) as u8
        } else {
            j
        };
        let lsb = s.sprite_pattern(rom, sprite, x_in_sprite, y_in_sprite, height);
        let next = if s.sprite_availables[x] || lsb == 0 {
            s
        } else {
            PpuState {
                sprite_availables: s.sprite_availables.update(x, true),
                sprite_palette_addresses: s.sprite_palette_addresses.update(
                    x,
                    (0x3F10 | ((sprite.palette_num_spec() as u16) << 2u8)) | lsb as u16,
                ),
                sprite_ids: s.sprite_ids.update(x, index),
                sprite_priorities: s.sprite_priorities.update(x, sprite.priority_spec()),
                ..s
            }
        };
        lemma_sprite_columns_keep_lengths(
            next,
            rom,
            index,
            sprite,
            y_in_sprite,
            height,
            (j + 1) as u8,
        );
    }
}

/// Sprite 0 does not hit in a dot during which the background or the
/// sprites are switched off: the flag is set after the dot only where it
/// was set before.
pub proof fn lemma_no_hit_without_rendering(s: PpuState, rom: RomState)
    requires
        s.wf(),
        !s.background_visible() || !s.sprites_visible(),
    ensures
        s.after_step(rom).0.zero_hit() ==> s.zero_hit(),
{
    reveal(PpuState::after_step);
    let rendered = s.after_render_pixel(rom);
    assert(rendered.ppustatus == s.ppustatus);
    let fetched = rendered.after_shift_registers().after_fetch(rom);
    assert(fetched.ppustatus == s.ppustatus);
    let cleared = PpuState { sprite_availables: Seq::new(256, |i: int| false), ..fetched };
    let addressed = PpuState { oamaddr: 0, ..fetched };
    let cleared_addressed = PpuState {
        sprite_availables: Seq::new(256, |i: int| false),
        ..addressed
    };
    lemma_sprite_scan_keeps(cleared, rom, 0, 0);
    lemma_sprite_scan_keeps(cleared_addressed, rom, 0, 0);
    let evaluated = fetched.after_evaluate_sprites(rom);
    assert(evaluated.ppustatus & 0x40 == s.ppustatus & 0x40);
    lemma_overflow_flag_bits(evaluated.ppustatus);
}

} // verus!
