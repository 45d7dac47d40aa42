//! The picture processing unit: registers, video memory, the pixel
//! pipeline and sprite evaluation.

use vstd::prelude::*;
use crate::bits::{lemma_and_le_u16, lemma_and_le_u32, lemma_and_le_u8};
use crate::display::{Display};
use crate::memory::Memory;
use crate::ppu_state::{
    name_table_address,
    palette_address,
    palette_color,
    vram_address,
    PpuState,
    PALETTES,
};
use crate::register::Register;
use crate::rom::{Mirrorings, Rom};
use crate::sprite::{Sprite, SpritesManager};

verus! {

/// The control register, written at 0x2000.
pub struct PpuControlRegister {
    pub register: Register<u8>,
}

impl PpuControlRegister {
    pub open spec fn view(&self) -> u8 {
        self.register@
    }

    pub fn new() -> (r: PpuControlRegister)
        ensures
            r@ == 0,
    {
        PpuControlRegister { register: Register::<u8>::new() }
    }

    pub fn store(&mut self, value: u8)
        ensures
            final(self)@ == value,
    {
        self.register.store(value);
    }

    /// Bit 7: raise an interrupt at the start of the vertical blank.
    pub fn is_nmi_enabled(&self) -> (enabled: bool)
        ensures
            enabled == (self@ & 0x80 != 0),
    {
        self.register.is_bit_set(7)
    }

    /// Bit 5: sprites are 16 rows high, not 8.
    pub fn sprite_height(&self) -> (height: u8)
        ensures
            height == if self@ & 0x20 != 0 {
                16u8
            } else {
                8u8
            },
    {
        if self.register.is_bit_set(5) {
            16
        } else {
            8
        }
    }

    /// Bit 4: the background takes its patterns from 0x1000.
    pub fn background_pattern_table_base_address(&self) -> (base: u16)
        ensures
            base == if self@ & 0x10 != 0 {
                0x1000u16
            } else {
                0u16
            },
    {
        if self.register.is_bit_set(4) {
            0x1000
        } else {
            0
        }
    }

    /// Bit 3: sprites of height 8 take their patterns from 0x1000.
    pub fn sprite_pattern_table_base_address(&self) -> (base: u16)
        ensures
            base == if self@ & 0x08 != 0 {
                0x1000u16
            } else {
                0u16
            },
    {
        if self.register.is_bit_set(3) {
            0x1000
        } else {
            0
        }
    }

    /// Bit 2: an access to the data register moves the address by 32, not 1.
    pub fn increment_address_size(&self) -> (size: u8)
        ensures
            size == if self@ & 0x04 != 0 {
                32u8
            } else {
                1u8
            },
    {
        if self.register.is_bit_set(2) {
            32
        } else {
            1
        }
    }

    /// Bits 1 and 0: the nametable that the background starts in.
    pub fn base_name_table_address(&self) -> (address: u16)
        ensures
            address == if self@ & 0x03 == 0 {
                0x2000u16
            } else if self@ & 0x03 == 1 {
                0x2400u16
            } else if self@ & 0x03 == 2 {
                0x2800u16
            } else {
                0x2C00u16
            },
    {
        let select = self.register.load_bits(0, 2);
        if select == 0 {
            0x2000
        } else if select == 1 {
            0x2400
        } else if select == 2 {
            0x2800
        } else {
            0x2C00
        }
    }
}

/// The mask register, written at 0x2001.
pub struct PpuMaskRegister {
    pub register: Register<u8>,
}

impl PpuMaskRegister {
    pub open spec fn view(&self) -> u8 {
        self.register@
    }

    pub fn new() -> (r: PpuMaskRegister)
        ensures
            r@ == 0,
    {
        PpuMaskRegister { register: Register::<u8>::new() }
    }

    pub fn store(&mut self, value: u8)
        ensures
            final(self)@ == value,
    {
        self.register.store(value);
    }

    pub fn is_emphasis_blue(&self) -> (set: bool)
        ensures
            set == (self@ & 0x80 != 0),
    {
        self.register.is_bit_set(7)
    }

    pub fn is_emphasis_green(&self) -> (set: bool)
        ensures
            set == (self@ & 0x40 != 0),
    {
        self.register.is_bit_set(6)
    }

    pub fn is_emphasis_red(&self) -> (set: bool)
        ensures
            set == (self@ & 0x20 != 0),
    {
        self.register.is_bit_set(5)
    }

    pub fn is_sprites_visible(&self) -> (set: bool)
        ensures
            set == (self@ & 0x10 != 0),
    {
        self.register.is_bit_set(4)
    }

    pub fn is_background_visible(&self) -> (set: bool)
        ensures
            set == (self@ & 0x08 != 0),
    {
        self.register.is_bit_set(3)
    }

    pub fn is_left_most_sprites_visible(&self) -> (set: bool)
        ensures
            set == (self@ & 0x04 != 0),
    {
        self.register.is_bit_set(2)
    }

    pub fn is_left_most_background_visible(&self) -> (set: bool)
        ensures
            set == (self@ & 0x02 != 0),
    {
        self.register.is_bit_set(1)
    }

    pub fn is_greyscale(&self) -> (set: bool)
        ensures
            set == (self@ & 0x01 != 0),
    {
        self.register.is_bit_set(0)
    }
}

/// The status register, read at 0x2002.
pub struct PpuStatusRegister {
    pub register: Register<u8>,
}

impl PpuStatusRegister {
    pub open spec fn view(&self) -> u8 {
        self.register@
    }

    pub fn new() -> (r: PpuStatusRegister)
        ensures
            r@ == 0,
    {
        PpuStatusRegister { register: Register::<u8>::new() }
    }

    pub fn load(&self) -> (value: u8)
        ensures
            value == self@,
    {
        self.register.load()
    }

    pub fn store(&mut self, value: u8)
        ensures
            final(self)@ == value,
    {
        self.register.store(value);
    }

    pub fn set_vblank(&mut self)
        ensures
            final(self)@ == old(self)@ | 0x80,
    {
        self.register.set_bit(7);
    }

    pub fn clear_vblank(&mut self)
        ensures
            final(self)@ == old(self)@ & !0x80u8,
    {
        self.register.clear_bit(7);
    }

    pub fn is_vblank(&self) -> (set: bool)
        ensures
            set == (self@ & 0x80 != 0),
    {
        self.register.is_bit_set(7)
    }

    pub fn set_zero_hit(&mut self)
        ensures
            final(self)@ == old(self)@ | 0x40,
    {
        self.register.set_bit(6);
    }

    pub fn clear_zero_hit(&mut self)
        ensures
            final(self)@ == old(self)@ & !0x40u8,
    {
        self.register.clear_bit(6);
    }

    pub fn set_overflow(&mut self)
        ensures
            final(self)@ == old(self)@ | 0x20,
    {
        self.register.set_bit(5);
    }

    pub fn clear_overflow(&mut self)
        ensures
            final(self)@ == old(self)@ & !0x20u8,
    {
        self.register.clear_bit(5);
    }
}

/// Every address that `vram_address` hands out lies in the 16 KiB.
pub proof fn lemma_vram_address_bits(address: u16)
    by (bit_vector)
    ensures
        (address & 0x3FFF) <= 0x3FFF,
        (address & 0x2FFF) <= 0x2FFF,
        (address & 0x3FF) | 0x2000u16 < 0x4000,
        (address & 0x3FF) | 0x2400u16 < 0x4000,
        (address & 0x3FF) | 0x2800u16 < 0x4000,
        (address & 0x3FF) | (address & 0x2C00) < 0x4000,
        0x3F00u16 | ((address & 0x1F) & 0x0F) < 0x4000,
        0x3F00u16 | (address & 0x1F) < 0x4000,
        0x2000u16 | (address & 0x0FFF) < 0x4000,
{
}

pub proof fn lemma_vram_address_in_range(address: u16, mirroring: Mirrorings)
    ensures
        vram_address(address & 0x3FFF, mirroring) < 0x4000,
{
    let a = address & 0x3FFF;
    lemma_vram_address_bits(address);
    lemma_vram_address_bits(a);
    lemma_vram_address_bits(a & 0x2FFF);
}

/// The address registers stay on 15 bits.
pub proof fn lemma_address_registers(v: u16, t: u16, value: u8)
    by (bit_vector)
    requires
        v < 0x8000,
        t < 0x8000,
    ensures
        PpuState::t_after_control(t, value) < 0x8000,
        PpuState::t_after_scroll_x(t, value) < 0x8000,
        PpuState::t_after_scroll_y(t, value) < 0x8000,
        PpuState::t_after_address_high(t, value) < 0x8000,
        PpuState::t_after_address_low(t, value) < 0x8000,
        PpuState::v_with_horizontal(v, t) < 0x8000,
        PpuState::v_with_vertical(v, t) < 0x8000,
        (v & !0x1Fu16) ^ 0x400 < 0x8000,
        (v & 0x1F) != 31 ==> v + 1 < 0x8000,
        (v & 0x7000) != 0x7000 ==> v + 0x1000 < 0x8000,
        ((v & !0x7000u16) & 0x3E0) >> 5u8 <= 31,
        (((v & !0x7000u16) ^ 0x800) & !0x3E0u16) | (0u16 << 5u8) < 0x8000,
        ((v & !0x7000u16) & !0x3E0u16) | (0u16 << 5u8) < 0x8000,
        v & 0x7FFF < 0x8000,
        (v >> 12u8) & 0x7 <= 7,
        ((value as u16) << 4u8) <= 0xFF0,
{
}

proof fn lemma_tile_row(v: u16, y: u16)
    by (bit_vector)
    requires
        v < 0x8000,
        y < 31,
    ensures
        ((v & !0x7000u16) & !0x3E0u16) | (((y + 1) as u16) << 5u8) < 0x8000,
{
}

proof fn lemma_colour_bits(c: u32, entry: u8, tile: u8, row: u8)
    by (bit_vector)
    requires
        c <= 0xFFFFFF,
    ensures
        c | 0x00FF0000 <= 0xFFFFFF,
        c | 0x0000FF00 <= 0xFFFFFF,
        c | 0x000000FF <= 0xFFFFFF,
        entry & 0x30 < 64,
        entry & 0x3F < 64,
        (tile as u16 & 1) <= 1,
        (tile as u16 & 0xFE) <= 0xFE,
        ((row & 0x8) << 1u8) <= 16,
{
}

/// The picture processing unit, drawing on a display of type `D`.
pub struct Ppu<D: Display> {
    frame: u32,
    cycle: u16,
    scanline: u16,
    suppress_vblank: bool,
    register_first_store: bool,
    fine_x_scroll: u8,
    name_table_latch: u8,
    name_table: Register<u8>,
    pattern_table_low_latch: u8,
    pattern_table_high_latch: u8,
    pattern_table_low: Register<u16>,
    pattern_table_high: Register<u16>,
    attribute_table_low_latch: u8,
    attribute_table_high_latch: u8,
    attribute_table_low: Register<u16>,
    attribute_table_high: Register<u16>,
    current_vram_address: u16,
    temporal_vram_address: u16,
    vram_read_buffer: u8,
    vram: Memory,
    sprite_availables: [bool; 256],
    sprite_ids: [u8; 256],
    sprite_palette_addresses: [u16; 256],
    sprite_priorities: [u8; 256],
    primary_oam: SpritesManager,
    secondary_oam: SpritesManager,
    ppuctrl: PpuControlRegister,
    ppumask: PpuMaskRegister,
    ppustatus: PpuStatusRegister,
    oamaddr: Register<u8>,
    oamdata: Register<u8>,
    ppuscroll: Register<u8>,
    ppuaddr: Register<u8>,
    ppudata: Register<u8>,
    oamdma: Register<u8>,
    data_bus: u8,
    display: D,
    nmi_interrupted: bool,
    irq_interrupted: bool,
}

impl<D: Display> Ppu<D> {
    pub closed spec fn view(&self) -> PpuState {
        PpuState {
            frame: self.frame,
            cycle: self.cycle,
            scanline: self.scanline,
            suppress_vblank: self.suppress_vblank,
            register_first_store: self.register_first_store,
            fine_x_scroll: self.fine_x_scroll,
            name_table_latch: self.name_table_latch,
            name_table: self.name_table@,
            pattern_table_low_latch: self.pattern_table_low_latch,
            pattern_table_high_latch: self.pattern_table_high_latch,
            pattern_table_low: self.pattern_table_low@,
            pattern_table_high: self.pattern_table_high@,
            attribute_table_low_latch: self.attribute_table_low_latch,
            attribute_table_high_latch: self.attribute_table_high_latch,
            attribute_table_low: self.attribute_table_low@,
            attribute_table_high: self.attribute_table_high@,
            current_vram_address: self.current_vram_address,
            temporal_vram_address: self.temporal_vram_address,
            vram_read_buffer: self.vram_read_buffer,
            vram: self.vram@,
            sprite_availables: self.sprite_availables@,
            sprite_ids: self.sprite_ids@,
            sprite_palette_addresses: self.sprite_palette_addresses@,
            sprite_priorities: self.sprite_priorities@,
            primary_oam: self.primary_oam@,
            secondary_oam: self.secondary_oam@,
            ppuctrl: self.ppuctrl@,
            ppumask: self.ppumask@,
            ppustatus: self.ppustatus@,
            oamaddr: self.oamaddr@,
            oamdata: self.oamdata@,
            ppuscroll: self.ppuscroll@,
            ppuaddr: self.ppuaddr@,
            ppudata: self.ppudata@,
            oamdma: self.oamdma@,
            data_bus: self.data_bus,
            nmi_interrupted: self.nmi_interrupted,
            irq_interrupted: self.irq_interrupted,
            display: self.display.log(),
        }
    }

    /// The display is in order.
    pub closed spec fn display_wf(&self) -> bool {
        self.display.wf()
    }

    pub open spec fn wf(&self) -> bool {
        self@.wf() && self.display_wf()
    }

    pub fn new(display: D) -> (ppu: Ppu<D>)
        requires
            display.wf(),
        ensures
            ppu.wf(),
            ppu@ == PpuState::initial(display.log()),
    {
        let ppu = Ppu {
            frame: 0,
            cycle: 0,
            scanline: 0,
            suppress_vblank: false,
            fine_x_scroll: 0,
            current_vram_address: 0,
            temporal_vram_address: 0,
            vram: Memory::new(vec![0u8; 16384]),
            data_bus: 0,
            name_table_latch: 0,
            attribute_table_low_latch: 0,
            attribute_table_high_latch: 0,
            pattern_table_low_latch: 0,
            pattern_table_high_latch: 0,
            register_first_store: true,
            sprite_availables: [false;256],
            sprite_ids: [0u8;256],
            sprite_palette_addresses: [0u16;256],
            sprite_priorities: [0u8;256],
            oamaddr: Register::<u8>::new(),
            oamdata: Register::<u8>::new(),
            oamdma: Register::<u8>::new(),
            primary_oam: SpritesManager::new(Memory::new(vec![0u8; 256])),
            secondary_oam: SpritesManager::new(Memory::new(vec![0u8; 32])),
            vram_read_buffer: 0,
            ppuaddr: Register::<u8>::new(),
            ppudata: Register::<u8>::new(),
            ppuctrl: PpuControlRegister::new(),
            ppumask: PpuMaskRegister::new(),
            ppustatus: PpuStatusRegister::new(),
            ppuscroll: Register::<u8>::new(),
            name_table: Register::<u8>::new(),
            attribute_table_low: Register::<u16>::new(),
            attribute_table_high: Register::<u16>::new(),
            pattern_table_low: Register::<u16>::new(),
            pattern_table_high: Register::<u16>::new(),
            display: display,
            nmi_interrupted: false,
            irq_interrupted: false,
        };
        proof {
            let s = PpuState::initial(display.log());
            assert(ppu@.vram =~= s.vram);
            assert(ppu@.sprite_availables =~= s.sprite_availables);
            assert(ppu@.sprite_ids =~= s.sprite_ids);
            assert(ppu@.sprite_palette_addresses =~= s.sprite_palette_addresses);
            assert(ppu@.sprite_priorities =~= s.sprite_priorities);
            assert(ppu@.primary_oam =~= s.primary_oam);
            assert(ppu@.secondary_oam =~= s.secondary_oam);
        }
        ppu
    }

    pub fn bootup(&mut self)
        ensures
            final(self)@ == old(self)@.after_bootup(),
            old(self).wf() ==> final(self).wf(),
    {
        self.ppustatus.store(0x80);
    }

    pub fn reset(&mut self)
        ensures
            final(self)@ == old(self)@.after_reset(),
            old(self).wf() ==> final(self).wf(),
    {
        self.ppuctrl.store(0x00);
        self.ppumask.store(0x00);
        self.ppuscroll.store(0x00);
        self.ppudata.store(0x00);
        self.register_first_store = true;
        self.frame = 0;
        self.scanline = 0;
        self.cycle = 0;
    }

    /// The number of the frame being drawn.
    pub fn frame(&self) -> (frame: u32)
        ensures
            frame == self@.frame,
    {
        self.frame
    }

    pub fn cycle(&self) -> (cycle: u16)
        ensures
            cycle == self@.cycle,
    {
        self.cycle
    }

    pub fn scanline(&self) -> (scanline: u16)
        ensures
            scanline == self@.scanline,
    {
        self.scanline
    }

    /// Whether the unit asks for a non-maskable interrupt.
    pub fn nmi_interrupted(&self) -> (raised: bool)
        ensures
            raised == self@.nmi_interrupted,
    {
        self.nmi_interrupted
    }

    pub fn clear_nmi_interrupted(&mut self)
        ensures
            final(self)@ == (PpuState { nmi_interrupted: false, ..old(self)@ }),
            old(self).wf() ==> final(self).wf(),
    {
        self.nmi_interrupted = false;
    }

    /// Whether the cartridge asks for an interrupt through the unit.
    pub fn irq_interrupted(&self) -> (raised: bool)
        ensures
            raised == self@.irq_interrupted,
    {
        self.irq_interrupted
    }

    pub fn clear_irq_interrupted(&mut self)
        ensures
            final(self)@ == (PpuState { irq_interrupted: false, ..old(self)@ }),
            old(self).wf() ==> final(self).wf(),
    {
        self.irq_interrupted = false;
    }

    /// Runs the unit for one dot.
    pub fn step(&mut self, rom: &mut Rom)
        requires
            old(self).wf(),
            old(rom)@.wf(),
        ensures
            final(self).wf(),
            final(rom)@.wf(),
            (final(self)@, final(rom)@) == old(self)@.after_step(old(rom)@),
    {
        proof {
            reveal(PpuState::after_step);
        }
        self.render_pixel(rom);
        self.shift_registers();
        self.fetch(rom);
        self.evaluate_sprites(rom);
        self.update_flags(rom);
        self.countup_scroll_counters();
        self.countup_cycle();
    }

    /// Reads a register as the processor does.
    pub fn load_register(&mut self, address: u16, rom: &Rom) -> (value: u8)
        requires
            old(self).wf(),
            rom@.wf(),
        ensures
            final(self).wf(),
            value == old(self)@.register_value(address, rom@),
            final(self)@ == old(self)@.after_load_register(address, rom@),
    {
        if address == 0x2002 {
            let value = self.ppustatus.load();
            self.ppustatus.clear_vblank();
            self.register_first_store = true;
            self.data_bus = (value & 0xE0) | (self.data_bus & 0x1F);
            if self.scanline == 241 && (self.cycle == 0 || self.cycle == 1) {
                self.suppress_vblank = true;
            }
            if self.scanline == 241 && (self.cycle == 1 || self.cycle == 2) {
                self.data_bus | 0x80
            } else {
                self.data_bus
            }
        } else if address == 0x2004 {
            let value = self.primary_oam.load(self.oamaddr.load());
            self.data_bus = value;
            value
        } else if address == 0x2007 {
            proof {
                lemma_vram_address_bits(self.current_vram_address);
            }
            let value = self.load(self.current_vram_address, rom);
            let return_value = if (self.current_vram_address & 0x3FFF) <= 0x3EFF {
                self.vram_read_buffer
            } else {
                value
            };
            self.vram_read_buffer = if (self.current_vram_address & 0x3FFF) <= 0x3EFF {
                value
            } else {
                self.load(self.current_vram_address & 0x2FFF, rom)
            };
            self.data_bus = return_value;
            self.increment_vram_address();
            return_value
        } else {
            self.data_bus
        }
    }

    /// Writes a register as the processor does.
    pub fn store_register(&mut self, address: u16, value: u8, rom: &mut Rom)
        requires
            old(self).wf(),
            old(rom)@.wf(),
        ensures
            final(self).wf(),
            final(rom)@.wf(),
            (final(self)@, final(rom)@) == old(self)@.after_store_register(
                address,
                value,
                old(rom)@,
            ),
    {
        proof {
            lemma_address_registers(self.current_vram_address, self.temporal_vram_address, value);
        }
        self.data_bus = value;
        if address == 0x2000 {
            let previous_nmi_enabled = self.ppuctrl.is_nmi_enabled();
            self.ppuctrl.store(value);
            if self.ppustatus.is_vblank() && !previous_nmi_enabled && self.ppuctrl.is_nmi_enabled() {
                self.nmi_interrupted = true;
            }
            self.temporal_vram_address = self.temporal_vram_address & 0xF3FF;
            self.temporal_vram_address = self.temporal_vram_address | (((value as u16) & 0x3)
                << 10u8);
        } else if address == 0x2001 {
            self.ppumask.store(value);
        } else if address == 0x2003 {
            self.oamaddr.store(value);
        } else if address == 0x2004 {
            self.oamdata.store(value);
            self.primary_oam.store(self.oamaddr.load(), value);
            self.oamaddr.increment();
        } else if address == 0x2005 {
            self.ppuscroll.store(value);
            if self.register_first_store {
                self.fine_x_scroll = value & 0x7;
                self.temporal_vram_address = self.temporal_vram_address & 0xFFE0;
                self.temporal_vram_address = self.temporal_vram_address | (((value as u16) >> 3u8)
                    & 0x1F);
            } else {
                self.temporal_vram_address = self.temporal_vram_address & 0x8C1F;
                self.temporal_vram_address = self.temporal_vram_address | (((value as u16) & 0xF8)
                    << 2u8);
                self.temporal_vram_address = self.temporal_vram_address | (((value as u16) & 0x7)
                    << 12u8);
            }
            self.register_first_store = !self.register_first_store;
        } else if address == 0x2006 {
            if self.register_first_store {
                self.temporal_vram_address = self.temporal_vram_address & 0x00FF;
                self.temporal_vram_address = self.temporal_vram_address | (((value as u16) & 0x3F)
                    << 8u8);
            } else {
                self.ppuaddr.store(value);
                self.temporal_vram_address = self.temporal_vram_address & 0xFF00;
                self.temporal_vram_address = self.temporal_vram_address | (value as u16);
                self.current_vram_address = self.temporal_vram_address;
            }
            self.register_first_store = !self.register_first_store;
        } else if address == 0x2007 {
            self.ppudata.store(value);
            self.store(self.current_vram_address, value, rom);
            self.increment_vram_address();
        } else if address == 0x4014 {
            self.oamdma.store(value);
        }
    }

    /// Reads video memory or, for the pattern tables of a cartridge with
    /// character banks, the cartridge.
    fn load(&self, address: u16, rom: &Rom) -> (value: u8)
        requires
            self@.wf(),
            rom@.wf(),
        ensures
            value == self@.load(address, rom@),
    {
        proof {
            lemma_vram_address_bits(address);
        }
        let address = address & 0x3FFF;
        if address < 0x2000 && rom.has_chr_rom() {
            rom.load(address as u32)
        } else {
            self.vram.load(self.convert_vram_address(address, rom) as u32)
        }
    }

    fn store(&mut self, address: u16, value: u8, rom: &mut Rom)
        requires
            old(self).wf(),
            old(rom)@.wf(),
        ensures
            final(self).wf(),
            final(rom)@.wf(),
            (final(self)@, final(rom)@) == old(self)@.after_store(address, value, old(rom)@),
    {
        proof {
            lemma_vram_address_bits(address);
        }
        let address = address & 0x3FFF;
        if address < 0x2000 && rom.has_chr_rom() {
            rom.store(address as u32, value);
        } else {
            let index = self.convert_vram_address(address, rom);
            self.vram.store(index as u32, value);
        }
    }

    fn convert_vram_address(&self, address: u16, rom: &Rom) -> (index: u16)
        requires
            rom@.wf(),
            address <= 0x3FFF,
        ensures
            index == vram_address(address, rom@.mirroring_type()),
            index < 0x4000,
    {
        proof {
            lemma_vram_address_bits(address);
            lemma_vram_address_bits(address & 0x2FFF);
        }
        if address <= 0x1FFF {
            address
        } else if address <= 0x3EFF {
            self.get_name_table_address_with_mirroring(address & 0x2FFF, rom)
        } else {
            let entry = address & 0x1F;
            if entry == 0x10 || entry == 0x14 || entry == 0x18 || entry == 0x1C {
                0x3F00 | (entry & 0x0F)
            } else {
                0x3F00 | entry
            }
        }
    }

    fn get_name_table_address_with_mirroring(&self, address: u16, rom: &Rom) -> (index: u16)
        requires
            rom@.wf(),
        ensures
            index == name_table_address(address, rom@.mirroring_type()),
    {
        let name_table_address = address & 0x2C00;
        (address & 0x3FF) | match rom.mirroring_type() {
            Mirrorings::SingleScreen => 0x2000,
            Mirrorings::Horizontal => if name_table_address == 0x2000 || name_table_address
                == 0x2400 {
                0x2000
            } else {
                0x2800
            },
            Mirrorings::Vertical => if name_table_address == 0x2000 || name_table_address
                == 0x2800 {
                0x2000
            } else {
                0x2400
            },
            Mirrorings::FourScreen => name_table_address,
        }
    }

    fn render_pixel(&mut self, rom: &Rom)
        requires
            old(self).wf(),
            rom@.wf(),
        ensures
            final(self).wf(),
            final(self)@ == old(self)@.after_render_pixel(rom@),
    {
        if self.cycle >= 257 || self.scanline >= 240 || self.cycle == 0 {
            return ;
        }
        let x = (self.cycle - 1) % 256;
        let y = self.scanline;
        let background_visible = self.ppumask.is_background_visible() && (
        self.ppumask.is_left_most_background_visible() || x >= 8);
        let sprites_visible = self.ppumask.is_sprites_visible() && (
        self.ppumask.is_left_most_sprites_visible() || x >= 8);
        let background_palette_address = self.get_background_palette_address();
        let sprite_available = self.sprite_availables[x as usize];
        let sprite_palette_address = self.sprite_palette_addresses[x as usize];
        let sprite_id = self.sprite_ids[x as usize];
        let sprite_priority = self.sprite_priorities[x as usize];
        let is_background_pixel_zero = !background_visible || (background_palette_address & 0x3)
            == 0;
        let is_sprite_pixel_zero = !sprites_visible || !sprite_available || (sprite_palette_address
            & 0x3) == 0;
        let palette_address: u16 = if is_background_pixel_zero {
            if is_sprite_pixel_zero {
                0x3F00
            } else {
                sprite_palette_address
            }
        } else if is_sprite_pixel_zero {
            background_palette_address
        } else if sprite_priority == 0 {
            sprite_palette_address
        } else {
            background_palette_address
        };
        let c = self.get_emphasis_color(self.load_palette(self.load(palette_address, rom)));
        if sprite_id == 0 && !is_sprite_pixel_zero && !is_background_pixel_zero && x != 255 {
            self.ppustatus.set_zero_hit();
        }
        self.display.render_pixel(x, y, c);
    }

    fn get_background_palette_address(&self) -> (address: u16)
        ensures
            address == self@.background_palette_address(),
    {
        proof {
            lemma_and_le_u8(self.fine_x_scroll, 0xF);
        }
        let pos = 15 - (self.fine_x_scroll & 0xF);
        let offset = (self.attribute_table_high.load_bit(pos) << 3u8) | (
        self.attribute_table_low.load_bit(pos) << 2u8) | (self.pattern_table_high.load_bit(pos)
            << 1u8) | self.pattern_table_low.load_bit(pos);
        0x3F00 + offset as u16
    }

    fn shift_registers(&mut self)
        requires
            old(self).wf(),
        ensures
            final(self).wf(),
            final(self)@ == old(self)@.after_shift_registers(),
    {
        if self.scanline >= 240 && self.scanline <= 260 {
            return ;
        }
        if (self.cycle >= 1 && self.cycle <= 256) || (self.cycle >= 329 && self.cycle <= 336) {
            self.pattern_table_low.shift(0);
            self.pattern_table_high.shift(0);
            self.attribute_table_low.shift(0);
            self.attribute_table_high.shift(0);
        }
    }

    fn fetch(&mut self, rom: &Rom)
        requires
            old(self).wf(),
            rom@.wf(),
        ensures
            final(self).wf(),
            final(self)@ == old(self)@.after_fetch(rom@),
    {
        if self.scanline >= 240 && self.scanline <= 260 {
            return ;
        }
        if self.cycle == 0 {
            return ;
        }
        if (self.cycle >= 257 && self.cycle <= 320) || self.cycle >= 337 {
            return ;
        }
        let phase = (self.cycle - 1) % 8;
        if phase == 0 {
            self.fetch_name_table(rom);
            self.name_table.store(self.name_table_latch);
            self.attribute_table_low.store_lower_byte(self.attribute_table_low_latch);
            self.attribute_table_high.store_lower_byte(self.attribute_table_high_latch);
            self.pattern_table_low.store_lower_byte(self.pattern_table_low_latch);
            self.pattern_table_high.store_lower_byte(self.pattern_table_high_latch);
        } else if phase == 2 {
            self.fetch_attribute_table(rom);
        } else if phase == 4 {
            self.fetch_pattern_table_low(rom);
        } else if phase == 6 {
            self.fetch_pattern_table_high(rom);
        }
    }

    fn fetch_name_table(&mut self, rom: &Rom)
        requires
            old(self).wf(),
            rom@.wf(),
        ensures
            final(self).wf(),
            final(self)@ == old(self)@.after_fetch_name_table(rom@),
    {
        self.name_table_latch = self.load(0x2000 | (self.current_vram_address & 0x0FFF), rom);
    }

    fn fetch_attribute_table(&mut self, rom: &Rom)
        requires
            old(self).wf(),
            rom@.wf(),
        ensures
            final(self).wf(),
            final(self)@ == old(self)@.after_fetch_attribute_table(rom@),
    {
        let v = self.current_vram_address;
        let coarse_y = (v >> 5u8) & 0x1F;
        let coarse_x = v & 0x1F;
        let byte = self.load(
            ((0x23C0 | (v & 0x0C00)) | ((v >> 4u8) & 0x38)) | ((v >> 2u8) & 0x07),
            rom,
        );
        let is_bottom = (coarse_y & 0x3) >= 2;
        let is_right = (coarse_x & 0x3) >= 2;
        let pos: u8 = if is_bottom {
            if is_right {
                6
            } else {
                4
            }
        } else {
            if is_right {
                2
            } else {
                0
            }
        };
        let value = (byte >> pos) & 0x3;
        self.attribute_table_high_latch = if value & 2 == 2 {
            0xff
        } else {
            0
        };
        self.attribute_table_low_latch = if value & 1 == 1 {
            0xff
        } else {
            0
        };
    }

    fn fetch_pattern_table_low(&mut self, rom: &Rom)
        requires
            old(self).wf(),
            rom@.wf(),
        ensures
            final(self).wf(),
            final(self)@ == old(self)@.after_fetch_pattern_table_low(rom@),
    {
        proof {
            lemma_address_registers(self.current_vram_address, 0, self.name_table@);
        }
        let fine_scroll_y = (self.current_vram_address >> 12u8) & 0x7;
        let index = self.ppuctrl.background_pattern_table_base_address() + ((
        self.name_table.load() as u16) << 4u8) + fine_scroll_y;
        self.pattern_table_low_latch = self.load(index, rom);
    }

    fn fetch_pattern_table_high(&mut self, rom: &Rom)
        requires
            old(self).wf(),
            rom@.wf(),
        ensures
            final(self).wf(),
            final(self)@ == old(self)@.after_fetch_pattern_table_high(rom@),
    {
        proof {
            lemma_address_registers(self.current_vram_address, 0, self.name_table@);
        }
        let fine_scroll_y = (self.current_vram_address >> 12u8) & 0x7;
        let index = self.ppuctrl.background_pattern_table_base_address() + ((
        self.name_table.load() as u16) << 4u8) + fine_scroll_y;
        self.pattern_table_high_latch = self.load(index + 0x8, rom);
    }

    fn update_flags(&mut self, rom: &mut Rom)
        requires
            old(self).wf(),
            old(rom)@.wf(),
        ensures
            final(self).wf(),
            final(rom)@.wf(),
            (final(self)@, final(rom)@) == old(self)@.after_update_flags(old(rom)@),
    {
        if self.cycle == 1 {
            if self.scanline == 241 {
                if !self.suppress_vblank {
                    self.ppustatus.set_vblank();
                }
                self.suppress_vblank = false;
                self.display.vblank();
            } else if self.scanline == 261 {
                self.ppustatus.clear_vblank();
                self.ppustatus.clear_zero_hit();
                self.ppustatus.clear_overflow();
            }
        }
        if self.cycle == 20 && self.scanline == 241 {
            if self.ppustatus.is_vblank() && self.ppuctrl.is_nmi_enabled() {
                self.nmi_interrupted = true;
            }
        }
        if self.cycle == 340 && self.scanline <= 240 && self.ppumask.is_background_visible() {
            if rom.irq_interrupted() {
                self.irq_interrupted = true;
            }
        }
    }

    fn countup_scroll_counters(&mut self)
        requires
            old(self).wf(),
        ensures
            final(self).wf(),
            final(self)@ == old(self)@.after_countup_scroll_counters(),
    {
        if !self.ppumask.is_background_visible() && !self.ppumask.is_sprites_visible() {
            return ;
        }
        if self.scanline >= 240 && self.scanline <= 260 {
            return ;
        }
        proof {
            lemma_address_registers(self.current_vram_address, self.temporal_vram_address, 0);
        }
        if self.scanline == 261 {
            if self.cycle >= 280 && self.cycle <= 304 {
                self.current_vram_address = self.current_vram_address & !0x7BE0u16;
                self.current_vram_address = self.current_vram_address | (
                self.temporal_vram_address & 0x7BE0);
            }
        }
        if self.cycle == 0 || (self.cycle >= 258 && self.cycle <= 320) {
            return ;
        }
        proof {
            lemma_address_registers(self.current_vram_address, self.temporal_vram_address, 0);
        }
        if (self.cycle % 8) == 0 {
            let mut v = self.current_vram_address;
            if (v & 0x1F) == 31 {
                v = v & !0x1Fu16;
                v = v ^ 0x400;
            } else {
                v += 1;
            }
            self.current_vram_address = v;
        }
        proof {
            lemma_address_registers(self.current_vram_address, self.temporal_vram_address, 0);
        }
        if self.cycle == 256 {
            let mut v = self.current_vram_address;
            if (v & 0x7000) != 0x7000 {
                v += 0x1000;
            } else {
                v = v & !0x7000u16;
                let mut y = (v & 0x3E0) >> 5u8;
                if y == 29 {
                    y = 0;
                    v = v ^ 0x800;
                } else if y == 31 {
                    y = 0;
                } else {
                    proof {
                        lemma_tile_row(self.current_vram_address, y);
                    }
                    y += 1;
                }
                v = (v & !0x3E0u16) | (y << 5u8);
            }
            self.current_vram_address = v;
        } else if self.cycle == 257 {
            self.current_vram_address = self.current_vram_address & !0x41Fu16;
            self.current_vram_address = self.current_vram_address | (self.temporal_vram_address
                & 0x41F);
        }
    }

    fn countup_cycle(&mut self)
        requires
            old(self).wf(),
        ensures
            final(self).wf(),
            final(self)@ == old(self)@.after_countup_cycle(),
    {
        self.cycle += 1;
        if self.cycle > 340 {
            self.cycle = 0;
            self.scanline += 1;
            if self.scanline > 261 {
                self.scanline = 0;
                self.frame = self.frame.wrapping_add(1);
            }
        }
    }

    fn increment_vram_address(&mut self)
        requires
            old(self).wf(),
        ensures
            final(self).wf(),
            final(self)@ == old(self)@.after_increment_vram_address(),
    {
        proof {
            lemma_and_le_u16(
                (self.current_vram_address + self@.increment_address_size()) as u16,
                0x7FFF,
            );
        }
        self.current_vram_address += self.ppuctrl.increment_address_size() as u16;
        self.current_vram_address = self.current_vram_address & 0x7FFF;
        self.ppuaddr.store(self.current_vram_address as u8 & 0xFF);
    }

    fn evaluate_sprites(&mut self, rom: &Rom)
        requires
            old(self).wf(),
            rom@.wf(),
        ensures
            final(self).wf(),
            final(self)@ == old(self)@.after_evaluate_sprites(rom@),
    {
        if (self.scanline < 240 || self.scanline == 261) && self.cycle >= 257 && self.cycle <= 320 {
            self.oamaddr.store(0);
        }
        if self.scanline >= 240 {
            return ;
        }
        if self.cycle == 1 {
            self.secondary_oam.reset();
        } else if self.cycle == 257 {
            self.process_sprite_pixels(rom);
        }
    }

    fn process_sprite_pixels(&mut self, rom: &Rom)
        requires
            old(self).wf(),
            rom@.wf(),
            old(self)@.scanline < 240,
        ensures
            final(self).wf(),
            final(self)@ == old(self)@.after_process_sprite_pixels(rom@),
    {
        self.sprite_availables = [false;256];
        assert(self@.sprite_availables =~= Seq::new(256, |i: int| false));
        let ghost start = self@;
        let y = self.scanline as u8;
        let height = self.ppuctrl.sprite_height();
        let mut n: u8 = 0;
        let mut i: u8 = 0;
        while i < 64
            invariant
                i <= 64,
                n <= 8,
                self.wf(),
                rom@.wf(),
                self@.scanline == start.scanline,
                self@.scanline < 240,
                y == self@.scanline as u8,
                height == self@.sprite_height(),
                self@.after_sprite_scan(rom@, i, n) == start.after_sprite_scan(rom@, 0, 0),
                start.after_sprite_scan(rom@, 0, 0) == old(self)@.after_process_sprite_pixels(rom@),
            decreases 64 - i,
        {
            let s = self.primary_oam.get(i);
            if s.on(y, height) {
                if n >= 8 {
                    let ghost found = self@;
                    self.ppustatus.set_overflow();
                    assert(found.after_sprite_scan(rom@, i, n) == self@);
                    return ;
                }
                let base_x = s.get_x();
                let y_in_sprite = s.get_y_in_sprite(y, height);
                let msb = s.get_palette_num() as u16;
                let ghost before = self@;
                let mut j: u8 = 0;
                while j < 8 && (base_x as u16 + j as u16) < 256
                    invariant
                        j <= 8,
                        self.wf(),
                        rom@.wf(),
                        height == 8 || height == 16,
                        y_in_sprite < height,
                        base_x == s.byte3,
                        msb == s.palette_num_spec() as u16,
                        self@ == (PpuState {
                            sprite_availables: self@.sprite_availables,
                            sprite_ids: self@.sprite_ids,
                            sprite_palette_addresses: self@.sprite_palette_addresses,
                            sprite_priorities: self@.sprite_priorities,
                            ..before
                        }),
                        self@.after_sprite_columns(rom@, i, s, y_in_sprite, height, j)
                            == before.after_sprite_columns(rom@, i, s, y_in_sprite, height, 0),
                    decreases 8 - j,
                {
                    let x = base_x + j;
                    if !self.sprite_availables[x as usize] {
                        let x_in_sprite = if s.horizontal_flip() {
                            7 - j
                        } else {
                            j
                        };
                        let lsb = self.get_pattern_table_element_for_sprite(
                            &s,
                            x_in_sprite,
                            y_in_sprite,
                            height,
                            rom,
                        ) as u16;
                        if lsb != 0 {
                            self.sprite_availables[x as usize] = true;
                            self.sprite_palette_addresses[x as usize] = (0x3F10 | (msb << 2u8))
                                | lsb;
                            self.sprite_ids[x as usize] = i;
                            self.sprite_priorities[x as usize] = s.get_priority();
                        }
                    }
                    j += 1;
                }
                self.secondary_oam.copy(n, s);
                n += 1;
            }
            i += 1;
        }
    }

    fn get_pattern_table_element_for_sprite(
        &self,
        s: &Sprite,
        x_in_sprite: u8,
        y_in_sprite: u8,
        height: u8,
        rom: &Rom,
    ) -> (bits: u8)
        requires
            self@.wf(),
            rom@.wf(),
            x_in_sprite < 8,
            y_in_sprite < height,
            height == 8 || height == 16,
        ensures
            bits == self@.sprite_pattern(rom@, *s, x_in_sprite, y_in_sprite, height),
    {
        proof {
            lemma_colour_bits(0, 0, s.byte1, y_in_sprite);
        }
        let address: u16 = if height == 8 {
            let base_address = self.ppuctrl.sprite_pattern_table_base_address();
            let byte_offset = s.get_tile_index() as u16 * 0x10;
            let row = y_in_sprite as u16;
            base_address + byte_offset + row
        } else {
            let tile_index = s.get_tile_index() as u16;
            let base_address = (tile_index & 1) * 0x1000;
            let byte_offset = (tile_index & 0xFE) * 0x10;
            let row = ((y_in_sprite % 8) + ((y_in_sprite & 0x8) << 1u8)) as u16;
            base_address + byte_offset + row
        };
        let lower_bits = self.load(address, rom);
        let higher_bits = self.load(address + 8, rom);
        let pos = 7 - x_in_sprite;
        (((higher_bits >> pos) & 1) << 1u8) | ((lower_bits >> pos) & 1)
    }

    fn load_palette(&self, address: u8) -> (c: u32)
        ensures
            c == palette_color(address, self@.greyscale()),
            c <= 0xFFFFFF,
    {
        proof {
            lemma_colour_bits(0, address, 0, 0);
        }
        let mask: u8 = if self.ppumask.is_greyscale() {
            0x30
        } else {
            0x3F
        };
        proof {
            lemma_and_le_u32(PALETTES[(address & mask) as int], 0xFFFFFF);
        }
        PALETTES[(address & mask) as usize] & 0xFFFFFF
    }

    fn get_emphasis_color(&self, c: u32) -> (emphasised: u32)
        requires
            c <= 0xFFFFFF,
        ensures
            emphasised == self@.emphasis_color(c),
            emphasised <= 0xFFFFFF,
    {
        let mut c = c;
        if self.ppumask.is_emphasis_red() {
            proof {
                lemma_colour_bits(c, 0, 0, 0);
            }
            c = c | 0x00FF0000;
        }
        if self.ppumask.is_emphasis_green() {
            proof {
                lemma_colour_bits(c, 0, 0, 0);
            }
            c = c | 0x0000FF00;
        }
        if self.ppumask.is_emphasis_blue() {
            proof {
                lemma_colour_bits(c, 0, 0, 0);
            }
            c = c | 0x000000FF;
        }
        c
    }

    pub fn get_display(&self) -> (display: &D)
        ensures
            display.log() == self@.display,
            self.wf() ==> display.wf(),
    {
        &self.display
    }
}

} // verus!
