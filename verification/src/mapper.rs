//! Cartridge mappers: from CPU and PPU addresses to offsets in the
//! cartridge's program and character banks.
//!
//! A mapper is its registers; each is described by functions on that value.
//! Program offsets count from the start of the program banks, character
//! offsets from the start of the character banks.

use vstd::prelude::*;
use crate::bits::{bit_mask_u8, lemma_and_le_u32, low_mask_u8};
use crate::register::Register;
use crate::rom::{Mirrorings, RomHeader};

verus! {

/// No mapper hands out an offset as large as this.
pub const CARTRIDGE_LIMIT: u32 = 0x40_0000;

/// What every mapper can do.
pub trait Mapper: Sized {
    /// The program offset of a CPU address in 0x8000..=0xFFFF.
    spec fn map_spec(&self, address: u32) -> u32;

    /// The character offset of a PPU address in 0x0000..=0x1FFF.
    spec fn map_for_chr_rom_spec(&self, address: u32) -> u32;

    /// The mapper after a write into cartridge space.
    spec fn after_store(&self, address: u32, value: u8) -> Self;

    /// Whether the mapper, not the header, decides the mirroring.
    spec fn has_mirroring_type_spec(&self) -> bool;

    /// The mirroring that the mapper selects.
    spec fn mirroring_type_spec(&self) -> Mirrorings;

    /// The mapper after one tick of its scanline counter.
    spec fn after_drive_irq_counter(&self) -> Self;

    /// Whether that tick raises an interrupt.
    spec fn irq_on_drive(&self) -> bool;

    fn map(&self, address: u32) -> (offset: u32)
        requires
            0x8000 <= address <= 0xFFFF,
        ensures
            offset == self.map_spec(address),
            offset < CARTRIDGE_LIMIT,
    ;

    fn map_for_chr_rom(&self, address: u32) -> (offset: u32)
        requires
            address < 0x2000,
        ensures
            offset == self.map_for_chr_rom_spec(address),
            offset < CARTRIDGE_LIMIT,
    ;

    fn store(&mut self, address: u32, value: u8)
        ensures
            *final(self) == old(self).after_store(address, value),
    ;

    fn has_mirroring_type(&self) -> (has: bool)
        ensures
            has == self.has_mirroring_type_spec(),
    ;

    fn mirroring_type(&self) -> (mirroring: Mirrorings)
        ensures
            mirroring == self.mirroring_type_spec(),
    ;

    fn drive_irq_counter(&mut self) -> (irq: bool)
        ensures
            *final(self) == old(self).after_drive_irq_counter(),
            irq == old(self).irq_on_drive(),
    ;
}

/// The number of the last 16 KiB program bank, 0 where there is none.
pub open spec fn last_bank_spec(program_bank_num: u8) -> u32 {
    if program_bank_num > 0 {
        (program_bank_num - 1) as u32
    } else {
        0
    }
}

fn last_bank(program_bank_num: u8) -> (bank: u32)
    ensures
        bank == last_bank_spec(program_bank_num),
        bank <= 254,
{
    if program_bank_num > 0 {
        (program_bank_num - 1) as u32
    } else {
        0
    }
}

/// Mapper 0: nothing switches.
pub struct NRomMapper {
    pub program_bank_num: u8,
}

impl NRomMapper {
    pub fn new(header: &RomHeader) -> (mapper: NRomMapper)
        requires
            header.wf(),
        ensures
            mapper == (NRomMapper { program_bank_num: header.prg_rom_bank_num_spec() }),
    {
        NRomMapper { program_bank_num: header.prg_rom_bank_num() }
    }
}

impl Mapper for NRomMapper {
    /// With one program bank, 0xC000..=0xFFFF repeats 0x8000..=0xBFFF.
    open spec fn map_spec(&self, address: u32) -> u32 {
        if self.program_bank_num == 1 && address >= 0xC000 {
            (address - 0xC000) as u32
        } else {
            (address - 0x8000) as u32
        }
    }

    open spec fn map_for_chr_rom_spec(&self, address: u32) -> u32 {
        address
    }

    open spec fn after_store(&self, address: u32, value: u8) -> NRomMapper {
        *self
    }

    open spec fn has_mirroring_type_spec(&self) -> bool {
        false
    }

    open spec fn mirroring_type_spec(&self) -> Mirrorings {
        Mirrorings::SingleScreen
    }

    open spec fn after_drive_irq_counter(&self) -> NRomMapper {
        *self
    }

    open spec fn irq_on_drive(&self) -> bool {
        false
    }

    fn map(&self, address: u32) -> (offset: u32) {
        let mut address = address;
        if self.program_bank_num == 1 && address >= 0xC000 {
            address -= 0x4000;
        }
        address - 0x8000
    }

    fn map_for_chr_rom(&self, address: u32) -> (offset: u32) {
        address
    }

    fn store(&mut self, _address: u32, _value: u8) {
    }

    fn has_mirroring_type(&self) -> (has: bool) {
        false
    }

    fn mirroring_type(&self) -> (mirroring: Mirrorings) {
        Mirrorings::SingleScreen
    }

    fn drive_irq_counter(&mut self) -> (irq: bool) {
        false
    }
}

/// Mapper 1: a five-bit latch filled one bit per write, committed on the
/// fifth write to one of four registers.
pub struct MMC1Mapper {
    pub program_bank_num: u8,
    pub control_register: Register<u8>,
    pub chr_bank0_register: Register<u8>,
    pub chr_bank1_register: Register<u8>,
    pub prg_bank_register: Register<u8>,
    pub latch: Register<u8>,
    /// Writes taken into the latch so far, 0 to 4.
    pub register_write_count: u32,
}

proof fn lemma_mmc1_bits(control: u8, value: u8, latch: u8)
    by (bit_vector)
    ensures
        control & !(low_mask_u8(2) << 2u8) | ((3u8 & low_mask_u8(2)) << 2u8) == control | 0x0C,
        (control >> 2u8) & low_mask_u8(2) == (control >> 2u8) & 3,
        (control >> 2u8) & 3 <= 3,
        control & low_mask_u8(2) == control & 3,
        (control >> 0u8) & low_mask_u8(2) == control & 3,
        control & 3 <= 3,
        value & 0x80 == 0 ==> value < 0x80,
{
}

impl MMC1Mapper {
    pub fn new(header: &RomHeader) -> (mapper: MMC1Mapper)
        requires
            header.wf(),
        ensures
            mapper == MMC1Mapper::initial(header.prg_rom_bank_num_spec()),
    {
        let mut control_register = Register::<u8>::new();
        control_register.store(0x0C);
        MMC1Mapper {
            program_bank_num: header.prg_rom_bank_num(),
            control_register: control_register,
            chr_bank0_register: Register::<u8>::new(),
            chr_bank1_register: Register::<u8>::new(),
            prg_bank_register: Register::<u8>::new(),
            latch: Register::<u8>::new(),
            register_write_count: 0,
        }
    }

    /// The mapper at power-on: 16 KiB switching with the last bank fixed.
    pub open spec fn initial(program_bank_num: u8) -> MMC1Mapper {
        MMC1Mapper {
            program_bank_num,
            control_register: Register { data: 0x0C },
            chr_bank0_register: Register { data: 0 },
            chr_bank1_register: Register { data: 0 },
            prg_bank_register: Register { data: 0 },
            latch: Register { data: 0 },
            register_write_count: 0,
        }
    }

    /// Bits 3 and 2 of the control register.
    pub open spec fn prg_mode(&self) -> u8 {
        (self.control_register@ >> 2u8) & 3
    }

    /// The bank selected by the program bank register.
    pub open spec fn prg_bank(&self) -> u32 {
        self.prg_bank_register@ as u32 & 0x0F
    }

    /// The latch after bit 0 of `value` has come in at bit 4.
    pub open spec fn latch_after(&self, value: u8) -> u8 {
        ((value & 1) << 4u8) | (self.latch@ >> 1u8)
    }
}

impl Mapper for MMC1Mapper {
    open spec fn map_spec(&self, address: u32) -> u32 {
        if self.prg_mode() <= 1 {
            // 32 KiB at 0x8000; the low bit of the bank number is ignored
            ((self.prg_bank() & 0x0E) * 0x4000 + (address & 0x7FFF)) as u32
        } else if self.prg_mode() == 2 {
            // first bank fixed at 0x8000, 16 KiB switched at 0xC000
            if address < 0xC000 {
                address & 0x3FFF
            } else {
                (self.prg_bank() * 0x4000 + (address & 0x3FFF)) as u32
            }
        } else {
            // last bank fixed at 0xC000, 16 KiB switched at 0x8000
            if address >= 0xC000 {
                (last_bank_spec(self.program_bank_num) * 0x4000 + (address & 0x3FFF)) as u32
            } else {
                (self.prg_bank() * 0x4000 + (address & 0x3FFF)) as u32
            }
        }
    }

    open spec fn map_for_chr_rom_spec(&self, address: u32) -> u32 {
        if self.control_register@ & bit_mask_u8(4) == 0 {
            // 8 KiB at a time
            ((self.chr_bank0_register@ as u32 & 0x1E) * 0x1000 + (address & 0x1FFF)) as u32
        } else if address < 0x1000 {
            ((self.chr_bank0_register@ as u32 & 0x1F) * 0x1000 + (address & 0x0FFF)) as u32
        } else {
            ((self.chr_bank1_register@ as u32 & 0x1F) * 0x1000 + (address & 0x0FFF)) as u32
        }
    }

    open spec fn after_store(&self, address: u32, value: u8) -> MMC1Mapper {
        if value & 0x80 != 0 {
            MMC1Mapper {
                register_write_count: 0,
                latch: Register { data: 0 },
                control_register: Register { data: self.control_register@ | 0x0C },
                ..*self
            }
        } else if self.register_write_count < 4 {
            MMC1Mapper {
                latch: Register { data: self.latch_after(value) },
                register_write_count: (self.register_write_count + 1) as u32,
                ..*self
            }
        } else {
            let committed = Register { data: self.latch_after(value) };
            let cleared = MMC1Mapper {
                latch: Register { data: 0 },
                register_write_count: 0,
                ..*self
            };
            if address & 0x6000 == 0x0000 {
                MMC1Mapper { control_register: committed, ..cleared }
            } else if address & 0x6000 == 0x2000 {
                MMC1Mapper { chr_bank0_register: committed, ..cleared }
            } else if address & 0x6000 == 0x4000 {
                MMC1Mapper { chr_bank1_register: committed, ..cleared }
            } else {
                MMC1Mapper { prg_bank_register: committed, ..cleared }
            }
        }
    }

    open spec fn has_mirroring_type_spec(&self) -> bool {
        true
    }

    open spec fn mirroring_type_spec(&self) -> Mirrorings {
        if self.control_register@ & 3 <= 1 {
            Mirrorings::SingleScreen
        } else if self.control_register@ & 3 == 2 {
            Mirrorings::Vertical
        } else {
            Mirrorings::Horizontal
        }
    }

    open spec fn after_drive_irq_counter(&self) -> MMC1Mapper {
        *self
    }

    open spec fn irq_on_drive(&self) -> bool {
        false
    }

    fn map(&self, address: u32) -> (offset: u32) {
        let bank: u32;
        let mut offset = address & 0x3FFF;
        let bank_num = self.prg_bank_register.load() as u32 & 0x0F;
        proof {
            lemma_mmc1_bits(self.control_register@, 0, 0);
            lemma_and_le_u32(address, 0x3FFF);
            lemma_and_le_u32(address, 0x7FFF);
            lemma_and_le_u32(self.prg_bank_register@ as u32, 0x0F);
            lemma_and_le_u32(self.prg_bank_register@ as u32 & 0x0F, 0x0E);
        }
        let mode = self.control_register.load_bits(2, 2);
        if mode <= 1 {
            offset = address & 0x7FFF;
            bank = bank_num & 0x0E;
        } else if mode == 2 {
            bank = if address < 0xC000 {
                0
            } else {
                bank_num
            };
        } else {
            bank = if address >= 0xC000 {
                last_bank(self.program_bank_num)
            } else {
                bank_num
            };
        }
        bank * 0x4000 + offset
    }

    fn map_for_chr_rom(&self, address: u32) -> (offset: u32) {
        let bank: u32;
        let mut offset = address & 0x0FFF;
        proof {
            lemma_and_le_u32(address, 0x0FFF);
            lemma_and_le_u32(address, 0x1FFF);
            lemma_and_le_u32(self.chr_bank0_register@ as u32, 0x1E);
            lemma_and_le_u32(self.chr_bank0_register@ as u32, 0x1F);
            lemma_and_le_u32(self.chr_bank1_register@ as u32, 0x1F);
        }
        if self.control_register.load_bit(4) == 0 {
            bank = self.chr_bank0_register.load() as u32 & 0x1E;
            offset = address & 0x1FFF;
        } else {
            bank = (if address < 0x1000 {
                self.chr_bank0_register.load()
            } else {
                self.chr_bank1_register.load()
            }) as u32 & 0x1f;
        }
        bank * 0x1000 + offset
    }

    fn store(&mut self, address: u32, value: u8) {
        proof {
            lemma_mmc1_bits(self.control_register@, value, self.latch@);
        }
        if (value & 0x80) != 0 {
            self.register_write_count = 0;
            self.latch.clear();
            self.control_register.store_bits(2, 2, 3);
        } else {
            self.latch.store(((value & 1) << 4u8) | (self.latch.load() >> 1u8));
            if self.register_write_count < 4 {
                self.register_write_count += 1;
            } else {
                let val = self.latch.load();
                let select = address & 0x6000;
                if select == 0x0000 {
                    self.control_register.store(val);
                } else if select == 0x2000 {
                    self.chr_bank0_register.store(val);
                } else if select == 0x4000 {
                    self.chr_bank1_register.store(val);
                } else {
                    self.prg_bank_register.store(val);
                }
                self.register_write_count = 0;
                self.latch.clear();
            }
        }
    }

    fn has_mirroring_type(&self) -> (has: bool) {
        true
    }

    fn mirroring_type(&self) -> (mirroring: Mirrorings) {
        proof {
            lemma_mmc1_bits(self.control_register@, 0, 0);
        }
        let select = self.control_register.load_bits(0, 2);
        if select <= 1 {
            Mirrorings::SingleScreen
        } else if select == 2 {
            Mirrorings::Vertical
        } else {
            Mirrorings::Horizontal
        }
    }

    fn drive_irq_counter(&mut self) -> (irq: bool) {
        false
    }
}

proof fn lemma_latch_bits(v0: u8, v1: u8, v2: u8, v3: u8, v4: u8)
    by (bit_vector)
    ensures
        ((v4 & 1) << 4u8) | ((((v3 & 1) << 4u8) | ((((v2 & 1) << 4u8) | ((((v1 & 1) << 4u8) | ((((v0
            & 1) << 4u8) | (0u8 >> 1u8)) >> 1u8)) >> 1u8)) >> 1u8)) >> 1u8) == (v0 & 1) + 2 * (v1
            & 1) + 4 * (v2 & 1) + 8 * (v3 & 1) + 16 * (v4 & 1),
{
}

/// Five writes with bit 7 clear, into an empty latch, commit the number
/// whose bits are the bits 0 of the five values, the first write giving
/// the lowest bit. Bits 14 and 13 of the address of the fifth write select
/// the register: 0x8000 the control register, 0xA000 and 0xC000 the two
/// character bank registers, 0xE000 the program bank register.
pub proof fn lemma_mmc1_fifth_write_commits(
    m: MMC1Mapper,
    address: u32,
    v0: u8,
    v1: u8,
    v2: u8,
    v3: u8,
    v4: u8,
)
    requires
        m.register_write_count == 0,
        m.latch@ == 0,
        v0 & 0x80 == 0,
        v1 & 0x80 == 0,
        v2 & 0x80 == 0,
        v3 & 0x80 == 0,
        v4 & 0x80 == 0,
    ensures
        ({
            let committed = ((v0 & 1) + 2 * (v1 & 1) + 4 * (v2 & 1) + 8 * (v3 & 1) + 16 * (v4 & 1)) as u8;
            let after = m.after_store(address, v0).after_store(address, v1).after_store(
                address,
                v2,
            ).after_store(address, v3).after_store(address, v4);
            &&& after.register_write_count == 0
            &&& after.latch@ == 0
            &&& address & 0x6000 == 0x0000 ==> after.control_register@ == committed
            &&& address & 0x6000 == 0x2000 ==> after.chr_bank0_register@ == committed
            &&& address & 0x6000 == 0x4000 ==> after.chr_bank1_register@ == committed
            &&& address & 0x6000 == 0x6000 ==> after.prg_bank_register@ == committed
        }),
{
    lemma_latch_bits(v0, v1, v2, v3, v4);
    let m1 = m.after_store(address, v0);
    let m2 = m1.after_store(address, v1);
    let m3 = m2.after_store(address, v2);
    let m4 = m3.after_store(address, v3);
    assert(m1.register_write_count == 1);
    assert(m2.register_write_count == 2);
    assert(m3.register_write_count == 3);
    assert(m4.register_write_count == 4);
    lemma_address_select(address);
}

proof fn lemma_address_select(address: u32)
    by (bit_vector)
    ensures
        address & 0x6000 == 0x0000 || address & 0x6000 == 0x2000 || address & 0x6000 == 0x4000
            || address & 0x6000 == 0x6000,
{
}

/// Mapper 2: the lower 16 KiB switch, the upper 16 KiB are the last bank.
pub struct UNRomMapper {
    pub program_bank_num: u8,
    pub register: Register<u8>,
}

impl UNRomMapper {
    pub fn new(header: &RomHeader) -> (mapper: UNRomMapper)
        requires
            header.wf(),
        ensures
            mapper == (UNRomMapper {
                program_bank_num: header.prg_rom_bank_num_spec(),
                register: Register { data: 0 },
            }),
    {
        UNRomMapper {
            program_bank_num: header.prg_rom_bank_num(),
            register: Register::<u8>::new(),
        }
    }
}

impl Mapper for UNRomMapper {
    open spec fn map_spec(&self, address: u32) -> u32 {
        if address < 0xC000 {
            (0x4000 * self.register@ + (address & 0x3FFF)) as u32
        } else {
            (0x4000 * last_bank_spec(self.program_bank_num) + (address & 0x3FFF)) as u32
        }
    }

    open spec fn map_for_chr_rom_spec(&self, address: u32) -> u32 {
        address
    }

    open spec fn after_store(&self, address: u32, value: u8) -> UNRomMapper {
        UNRomMapper { register: Register { data: value & 0xF }, ..*self }
    }

    open spec fn has_mirroring_type_spec(&self) -> bool {
        false
    }

    open spec fn mirroring_type_spec(&self) -> Mirrorings {
        Mirrorings::SingleScreen
    }

    open spec fn after_drive_irq_counter(&self) -> UNRomMapper {
        *self
    }

    open spec fn irq_on_drive(&self) -> bool {
        false
    }

    fn map(&self, address: u32) -> (offset: u32) {
        proof {
            lemma_and_le_u32(address, 0x3FFF);
        }
        let bank: u32 = if address < 0xC000 {
            self.register.load() as u32
        } else {
            last_bank(self.program_bank_num)
        };
        let offset = address & 0x3FFF;
        0x4000 * bank + offset
    }

    fn map_for_chr_rom(&self, address: u32) -> (offset: u32) {
        address
    }

    fn store(&mut self, _address: u32, value: u8) {
        self.register.store(value & 0xF);
    }

    fn has_mirroring_type(&self) -> (has: bool) {
        false
    }

    fn mirroring_type(&self) -> (mirroring: Mirrorings) {
        Mirrorings::SingleScreen
    }

    fn drive_irq_counter(&mut self) -> (irq: bool) {
        false
    }
}

/// Mapper 3: one register selects the 8 KiB character bank.
pub struct CNRomMapper {
    pub register: Register<u8>,
}

impl CNRomMapper {
    pub fn new() -> (mapper: CNRomMapper)
        ensures
            mapper == (CNRomMapper { register: Register { data: 0 } }),
    {
        CNRomMapper { register: Register::<u8>::new() }
    }
}

impl Mapper for CNRomMapper {
    open spec fn map_spec(&self, address: u32) -> u32 {
        (address - 0x8000) as u32
    }

    open spec fn map_for_chr_rom_spec(&self, address: u32) -> u32 {
        (self.register@ * 0x2000 + (address & 0x1FFF)) as u32
    }

    open spec fn after_store(&self, address: u32, value: u8) -> CNRomMapper {
        CNRomMapper { register: Register { data: value & 0xF } }
    }

    open spec fn has_mirroring_type_spec(&self) -> bool {
        false
    }

    open spec fn mirroring_type_spec(&self) -> Mirrorings {
        Mirrorings::SingleScreen
    }

    open spec fn after_drive_irq_counter(&self) -> CNRomMapper {
        *self
    }

    open spec fn irq_on_drive(&self) -> bool {
        false
    }

    fn map(&self, address: u32) -> (offset: u32) {
        address - 0x8000
    }

    fn map_for_chr_rom(&self, address: u32) -> (offset: u32) {
        proof {
            lemma_and_le_u32(address, 0x1FFF);
        }
        self.register.load() as u32 * 0x2000 + (address & 0x1FFF)
    }

    fn store(&mut self, _address: u32, value: u8) {
        self.register.store(value & 0xF);
    }

    fn has_mirroring_type(&self) -> (has: bool) {
        false
    }

    fn mirroring_type(&self) -> (mirroring: Mirrorings) {
        Mirrorings::SingleScreen
    }

    fn drive_irq_counter(&mut self) -> (irq: bool) {
        false
    }
}

/// Mapper 4: eight bank registers behind a bank-select register, and a
/// scanline counter that raises an interrupt when it reaches zero.
pub struct MMC3Mapper {
    pub program_bank_num: u8,
    pub character_bank_num: u8,
    pub register0: Register<u8>,
    pub register1: Register<u8>,
    pub register2: Register<u8>,
    pub register3: Register<u8>,
    pub register4: Register<u8>,
    pub register5: Register<u8>,
    pub register6: Register<u8>,
    pub register7: Register<u8>,
    pub program_register0: Register<u8>,
    pub program_register1: Register<u8>,
    pub character_register0: Register<u8>,
    pub character_register1: Register<u8>,
    pub character_register2: Register<u8>,
    pub character_register3: Register<u8>,
    pub character_register4: Register<u8>,
    pub character_register5: Register<u8>,
    pub irq_counter: u8,
    pub irq_counter_reload: bool,
    pub irq_enabled: bool,
}

proof fn lemma_mmc3_bits(select: u8, address: u32)
    by (bit_vector)
    ensures
        (select >> 0u8) & low_mask_u8(3) == select & 7,
        select & 7 <= 7,
        address & 0x1FFF <= 0x1FFF,
        address & 0x3FF <= 0x3FF,
        address & 0x3FF == (address & 0x1FFF) & 0x3FF,
{
}

impl MMC3Mapper {
    pub fn new(header: &RomHeader) -> (mapper: MMC3Mapper)
        requires
            header.wf(),
        ensures
            mapper == MMC3Mapper::initial(
                header.prg_rom_bank_num_spec(),
                header.chr_rom_bank_num_spec(),
            ),
    {
        MMC3Mapper {
            program_bank_num: header.prg_rom_bank_num(),
            character_bank_num: header.chr_rom_bank_num(),
            register0: Register::<u8>::new(),
            register1: Register::<u8>::new(),
            register2: Register::<u8>::new(),
            register3: Register::<u8>::new(),
            register4: Register::<u8>::new(),
            register5: Register::<u8>::new(),
            register6: Register::<u8>::new(),
            register7: Register::<u8>::new(),
            program_register0: Register::<u8>::new(),
            program_register1: Register::<u8>::new(),
            character_register0: Register::<u8>::new(),
            character_register1: Register::<u8>::new(),
            character_register2: Register::<u8>::new(),
            character_register3: Register::<u8>::new(),
            character_register4: Register::<u8>::new(),
            character_register5: Register::<u8>::new(),
            irq_counter: 0,
            irq_counter_reload: false,
            irq_enabled: true,
        }
    }

    /// The mapper at power-on: every register zero, the interrupt enabled.
    pub open spec fn initial(program_bank_num: u8, character_bank_num: u8) -> MMC3Mapper {
        MMC3Mapper {
            program_bank_num,
            character_bank_num,
            register0: Register { data: 0 },
            register1: Register { data: 0 },
            register2: Register { data: 0 },
            register3: Register { data: 0 },
            register4: Register { data: 0 },
            register5: Register { data: 0 },
            register6: Register { data: 0 },
            register7: Register { data: 0 },
            program_register0: Register { data: 0 },
            program_register1: Register { data: 0 },
            character_register0: Register { data: 0 },
            character_register1: Register { data: 0 },
            character_register2: Register { data: 0 },
            character_register3: Register { data: 0 },
            character_register4: Register { data: 0 },
            character_register5: Register { data: 0 },
            irq_counter: 0,
            irq_counter_reload: false,
            irq_enabled: true,
        }
    }

    /// The number of 8 KiB program banks.
    pub open spec fn program_banks(&self) -> u32 {
        (self.program_bank_num * 2) as u32
    }

    /// The number of 1 KiB character banks.
    pub open spec fn character_banks(&self) -> u32 {
        (self.character_bank_num * 8) as u32
    }

    /// The bank `back` places before the end, 0 where there are not that many.
    pub open spec fn bank_from_end(&self, back: u32) -> u32 {
        if self.program_banks() >= back {
            (self.program_banks() - back) as u32
        } else {
            0
        }
    }

    /// The 8 KiB program bank, before wrapping, that holds a CPU address.
    pub open spec fn program_bank_of(&self, address: u32) -> u32 {
        let swapped = self.register0@ & bit_mask_u8(6) != 0;
        if address <= 0x9FFF {
            if swapped {
                self.bank_from_end(2)
            } else {
                self.program_register0@ as u32
            }
        } else if address <= 0xBFFF {
            self.program_register1@ as u32
        } else if address <= 0xDFFF {
            if swapped {
                self.program_register0@ as u32
            } else {
                self.bank_from_end(2)
            }
        } else {
            self.bank_from_end(1)
        }
    }

    /// The 1 KiB character bank, before wrapping, that holds a PPU address.
    pub open spec fn character_bank_of(&self, address: u32) -> u8 {
        let a = address & 0x1FFF;
        // with the inversion bit set the two halves of the table change places
        let slot: int = if self.register0@ & bit_mask_u8(7) != 0 {
            (a / 0x400 + 4) % 8
        } else {
            (a / 0x400) as int
        };
        if slot == 0 {
            self.character_register0@ & 0xFE
        } else if slot == 1 {
            self.character_register0@ | 1
        } else if slot == 2 {
            self.character_register1@ & 0xFE
        } else if slot == 3 {
            self.character_register1@ | 1
        } else if slot == 4 {
            self.character_register2@
        } else if slot == 5 {
            self.character_register3@
        } else if slot == 6 {
            self.character_register4@
        } else {
            self.character_register5@
        }
    }

    /// A bank number wrapped to the banks that exist; unchanged where none does.
    pub open spec fn wrap_bank(bank: u32, count: u32) -> u32 {
        if count > 0 {
            bank % count
        } else {
            bank
        }
    }

    fn wrapped(bank: u32, count: u32) -> (wrapped: u32)
        ensures
            wrapped == Self::wrap_bank(bank, count),
            wrapped <= bank,
    {
        if count > 0 {
            assert(bank % count <= bank) by (nonlinear_arith)
                requires
                    count > 0,
            ;
            bank % count
        } else {
            bank
        }
    }

    fn from_end(&self, back: u32) -> (bank: u32)
        ensures
            bank == self.bank_from_end(back),
            bank <= 510,
    {
        let count = self.program_bank_num as u32 * 2;
        if count >= back {
            count - back
        } else {
            0
        }
    }
}

impl Mapper for MMC3Mapper {
    open spec fn map_spec(&self, address: u32) -> u32 {
        (Self::wrap_bank(self.program_bank_of(address), self.program_banks()) * 0x2000 + (address
            & 0x1FFF)) as u32
    }

    open spec fn map_for_chr_rom_spec(&self, address: u32) -> u32 {
        (Self::wrap_bank(self.character_bank_of(address) as u32, self.character_banks()) * 0x400
            + (address & 0x3FF)) as u32
    }

    open spec fn after_store(&self, address: u32, value: u8) -> MMC3Mapper {
        let v = Register { data: value };
        let even = address & 1 == 0;
        if 0x8000 <= address <= 0x9FFF {
            if even {
                MMC3Mapper { register0: v, ..*self }
            } else {
                let m = MMC3Mapper { register1: v, ..*self };
                let select = self.register0@ & 7;
                if select == 0 {
                    MMC3Mapper { character_register0: Register { data: value & 0xFE }, ..m }
                } else if select == 1 {
                    MMC3Mapper { character_register1: Register { data: value & 0xFE }, ..m }
                } else if select == 2 {
                    MMC3Mapper { character_register2: v, ..m }
                } else if select == 3 {
                    MMC3Mapper { character_register3: v, ..m }
                } else if select == 4 {
                    MMC3Mapper { character_register4: v, ..m }
                } else if select == 5 {
                    MMC3Mapper { character_register5: v, ..m }
                } else if select == 6 {
                    MMC3Mapper { program_register0: Register { data: value & 0x3F }, ..m }
                } else {
                    MMC3Mapper { program_register1: Register { data: value & 0x3F }, ..m }
                }
            }
        } else if 0xA000 <= address <= 0xBFFF {
            if even {
                MMC3Mapper { register2: v, ..*self }
            } else {
                MMC3Mapper { register3: v, ..*self }
            }
        } else if 0xC000 <= address <= 0xDFFF {
            // the even address holds the latch, the odd one arms the reload
            if even {
                MMC3Mapper { register4: v, ..*self }
            } else {
                MMC3Mapper { register5: v, irq_counter_reload: true, ..*self }
            }
        } else {
            if even {
                MMC3Mapper { register6: v, irq_enabled: false, ..*self }
            } else {
                MMC3Mapper { register7: v, irq_enabled: true, ..*self }
            }
        }
    }

    open spec fn has_mirroring_type_spec(&self) -> bool {
        true
    }

    open spec fn mirroring_type_spec(&self) -> Mirrorings {
        if self.register2@ & bit_mask_u8(0) != 0 {
            Mirrorings::Horizontal
        } else {
            Mirrorings::Vertical
        }
    }

    /// A pending reload takes the latch; otherwise an enabled counter above
    /// zero counts down, and arms a reload on reaching zero.
    open spec fn after_drive_irq_counter(&self) -> MMC3Mapper {
        if self.irq_counter_reload {
            MMC3Mapper { irq_counter: self.register4@, irq_counter_reload: false, ..*self }
        } else if self.irq_enabled && self.irq_counter > 0 {
            MMC3Mapper {
                irq_counter: (self.irq_counter - 1) as u8,
                irq_counter_reload: self.irq_counter == 1,
                ..*self
            }
        } else {
            *self
        }
    }

    open spec fn irq_on_drive(&self) -> bool {
        !self.irq_counter_reload && self.irq_enabled && self.irq_counter == 1
    }

    fn map(&self, address: u32) -> (offset: u32) {
        proof {
            lemma_mmc3_bits(0, address);
        }
        let swapped = self.register0.is_bit_set(6);
        let bank: u32 = if address <= 0x9FFF {
            if swapped {
                self.from_end(2)
            } else {
                self.program_register0.load() as u32
            }
        } else if address <= 0xBFFF {
            self.program_register1.load() as u32
        } else if address <= 0xDFFF {
            if swapped {
                self.program_register0.load() as u32
            } else {
                self.from_end(2)
            }
        } else {
            self.from_end(1)
        };
        Self::wrapped(bank, self.program_bank_num as u32 * 2) * 0x2000 + (address & 0x1FFF)
    }

    fn map_for_chr_rom(&self, address: u32) -> (offset: u32) {
        proof {
            lemma_mmc3_bits(0, address);
        }
        let a = address & 0x1FFF;
        let slot = if self.register0.is_bit_set(7) {
            (a / 0x400 + 4) % 8
        } else {
            a / 0x400
        };
        let bank: u8 = if slot == 0 {
            self.character_register0.load() & 0xFE
        } else if slot == 1 {
            self.character_register0.load() | 1
        } else if slot == 2 {
            self.character_register1.load() & 0xFE
        } else if slot == 3 {
            self.character_register1.load() | 1
        } else if slot == 4 {
            self.character_register2.load()
        } else if slot == 5 {
            self.character_register3.load()
        } else if slot == 6 {
            self.character_register4.load()
        } else {
            self.character_register5.load()
        };
        Self::wrapped(bank as u32, self.character_bank_num as u32 * 8) * 0x400 + (address & 0x3FF)
    }

    fn store(&mut self, address: u32, value: u8) {
        proof {
            lemma_mmc3_bits(self.register0@, address);
        }
        let even = (address & 1) == 0;
        if 0x8000 <= address && address <= 0x9FFF {
            if even {
                self.register0.store(value);
            } else {
                self.register1.store(value);
                let select = self.register0.load_bits(0, 3);
                if select == 0 {
                    self.character_register0.store(value & 0xFE);
                } else if select == 1 {
                    self.character_register1.store(value & 0xFE);
                } else if select == 2 {
                    self.character_register2.store(value);
                } else if select == 3 {
                    self.character_register3.store(value);
                } else if select == 4 {
                    self.character_register4.store(value);
                } else if select == 5 {
                    self.character_register5.store(value);
                } else if select == 6 {
                    self.program_register0.store(value & 0x3F);
                } else {
                    self.program_register1.store(value & 0x3F);
                }
            }
        } else if 0xA000 <= address && address <= 0xBFFF {
            if even {
                self.register2.store(value);
            } else {
                self.register3.store(value);
            }
        } else if 0xC000 <= address && address <= 0xDFFF {
            if even {
                self.register4.store(value);
            } else {
                self.register5.store(value);
                self.irq_counter_reload = true;
            }
        } else {
            if even {
                self.register6.store(value);
                self.irq_enabled = false;
            } else {
                self.register7.store(value);
                self.irq_enabled = true;
            }
        }
    }

    fn has_mirroring_type(&self) -> (has: bool) {
        true
    }

    fn mirroring_type(&self) -> (mirroring: Mirrorings) {
        if self.register2.is_bit_set(0) {
            Mirrorings::Horizontal
        } else {
            Mirrorings::Vertical
        }
    }

    fn drive_irq_counter(&mut self) -> (irq: bool) {
        if self.irq_counter_reload {
            self.irq_counter = self.register4.load();
            self.irq_counter_reload = false;
            false
        } else if self.irq_enabled {
            if self.irq_counter > 0 {
                self.irq_counter -= 1;
                if self.irq_counter == 0 {
                    self.irq_counter_reload = true;
                    true
                } else {
                    false
                }
            } else {
                false
            }
        } else {
            false
        }
    }
}

/// One mapper of each kind that the console knows.
pub enum Mappers {
    NRom(NRomMapper),
    MMC1(MMC1Mapper),
    UNRom(UNRomMapper),
    CNRom(CNRomMapper),
    MMC3(MMC3Mapper),
}

impl Mapper for Mappers {
    open spec fn map_spec(&self, address: u32) -> u32 {
        match *self {
            Mappers::NRom(m) => m.map_spec(address),
            Mappers::MMC1(m) => m.map_spec(address),
            Mappers::UNRom(m) => m.map_spec(address),
            Mappers::CNRom(m) => m.map_spec(address),
            Mappers::MMC3(m) => m.map_spec(address),
        }
    }

    open spec fn map_for_chr_rom_spec(&self, address: u32) -> u32 {
        match *self {
            Mappers::NRom(m) => m.map_for_chr_rom_spec(address),
            Mappers::MMC1(m) => m.map_for_chr_rom_spec(address),
            Mappers::UNRom(m) => m.map_for_chr_rom_spec(address),
            Mappers::CNRom(m) => m.map_for_chr_rom_spec(address),
            Mappers::MMC3(m) => m.map_for_chr_rom_spec(address),
        }
    }

    open spec fn after_store(&self, address: u32, value: u8) -> Mappers {
        match *self {
            Mappers::NRom(m) => Mappers::NRom(m.after_store(address, value)),
            Mappers::MMC1(m) => Mappers::MMC1(m.after_store(address, value)),
            Mappers::UNRom(m) => Mappers::UNRom(m.after_store(address, value)),
            Mappers::CNRom(m) => Mappers::CNRom(m.after_store(address, value)),
            Mappers::MMC3(m) => Mappers::MMC3(m.after_store(address, value)),
        }
    }

    open spec fn has_mirroring_type_spec(&self) -> bool {
        match *self {
            Mappers::NRom(m) => m.has_mirroring_type_spec(),
            Mappers::MMC1(m) => m.has_mirroring_type_spec(),
            Mappers::UNRom(m) => m.has_mirroring_type_spec(),
            Mappers::CNRom(m) => m.has_mirroring_type_spec(),
            Mappers::MMC3(m) => m.has_mirroring_type_spec(),
        }
    }

    open spec fn mirroring_type_spec(&self) -> Mirrorings {
        match *self {
            Mappers::NRom(m) => m.mirroring_type_spec(),
            Mappers::MMC1(m) => m.mirroring_type_spec(),
            Mappers::UNRom(m) => m.mirroring_type_spec(),
            Mappers::CNRom(m) => m.mirroring_type_spec(),
            Mappers::MMC3(m) => m.mirroring_type_spec(),
        }
    }

    open spec fn after_drive_irq_counter(&self) -> Mappers {
        match *self {
            Mappers::NRom(m) => Mappers::NRom(m.after_drive_irq_counter()),
            Mappers::MMC1(m) => Mappers::MMC1(m.after_drive_irq_counter()),
            Mappers::UNRom(m) => Mappers::UNRom(m.after_drive_irq_counter()),
            Mappers::CNRom(m) => Mappers::CNRom(m.after_drive_irq_counter()),
            Mappers::MMC3(m) => Mappers::MMC3(m.after_drive_irq_counter()),
        }
    }

    open spec fn irq_on_drive(&self) -> bool {
        match *self {
            Mappers::NRom(m) => m.irq_on_drive(),
            Mappers::MMC1(m) => m.irq_on_drive(),
            Mappers::UNRom(m) => m.irq_on_drive(),
            Mappers::CNRom(m) => m.irq_on_drive(),
            Mappers::MMC3(m) => m.irq_on_drive(),
        }
    }

    fn map(&self, address: u32) -> (offset: u32) {
        match self {
            Mappers::NRom(m) => m.map(address),
            Mappers::MMC1(m) => m.map(address),
            Mappers::UNRom(m) => m.map(address),
            Mappers::CNRom(m) => m.map(address),
            Mappers::MMC3(m) => m.map(address),
        }
    }

    fn map_for_chr_rom(&self, address: u32) -> (offset: u32) {
        match self {
            Mappers::NRom(m) => m.map_for_chr_rom(address),
            Mappers::MMC1(m) => m.map_for_chr_rom(address),
            Mappers::UNRom(m) => m.map_for_chr_rom(address),
            Mappers::CNRom(m) => m.map_for_chr_rom(address),
            Mappers::MMC3(m) => m.map_for_chr_rom(address),
        }
    }

    fn store(&mut self, address: u32, value: u8) {
        match self {
            Mappers::NRom(m) => m.store(address, value),
            Mappers::MMC1(m) => m.store(address, value),
            Mappers::UNRom(m) => m.store(address, value),
            Mappers::CNRom(m) => m.store(address, value),
            Mappers::MMC3(m) => m.store(address, value),
        }
    }

    fn has_mirroring_type(&self) -> (has: bool) {
        match self {
            Mappers::NRom(m) => m.has_mirroring_type(),
            Mappers::MMC1(m) => m.has_mirroring_type(),
            Mappers::UNRom(m) => m.has_mirroring_type(),
            Mappers::CNRom(m) => m.has_mirroring_type(),
            Mappers::MMC3(m) => m.has_mirroring_type(),
        }
    }

    fn mirroring_type(&self) -> (mirroring: Mirrorings) {
        match self {
            Mappers::NRom(m) => m.mirroring_type(),
            Mappers::MMC1(m) => m.mirroring_type(),
            Mappers::UNRom(m) => m.mirroring_type(),
            Mappers::CNRom(m) => m.mirroring_type(),
            Mappers::MMC3(m) => m.mirroring_type(),
        }
    }

    fn drive_irq_counter(&mut self) -> (irq: bool) {
        match self {
            Mappers::NRom(m) => m.drive_irq_counter(),
            Mappers::MMC1(m) => m.drive_irq_counter(),
            Mappers::UNRom(m) => m.drive_irq_counter(),
            Mappers::CNRom(m) => m.drive_irq_counter(),
            Mappers::MMC3(m) => m.drive_irq_counter(),
        }
    }
}

/// Chooses the mapper that a header asks for.
pub struct MapperFactory;

impl MapperFactory {
    /// The mapper for a mapper number, at power-on, where the number is known.
    pub open spec fn create_spec(header: Seq<u8>) -> Option<Mappers> {
        let number = crate::rom::header_mapper_num(header);
        let program = header[4];
        let character = header[5];
        if number == 0 {
            Some(Mappers::NRom(NRomMapper { program_bank_num: program }))
        } else if number == 1 {
            Some(Mappers::MMC1(MMC1Mapper::initial(program)))
        } else if number == 2 {
            Some(
                Mappers::UNRom(
                    UNRomMapper { program_bank_num: program, register: Register { data: 0 } },
                ),
            )
        } else if number == 3 {
            Some(Mappers::CNRom(CNRomMapper { register: Register { data: 0 } }))
        } else if number == 4 {
            Some(Mappers::MMC3(MMC3Mapper::initial(program, character)))
        } else {
            None
        }
    }

    /// `None` exactly where the header's mapper number is above 4.
    pub fn create(header: &RomHeader) -> (mapper: Option<Mappers>)
        requires
            header.wf(),
        ensures
            mapper == Self::create_spec(header@),
            mapper.is_some() == (crate::rom::header_mapper_num(header@) <= 4),
    {
        let number = header.mapper_num();
        if number == 0 {
            Some(Mappers::NRom(NRomMapper::new(header)))
        } else if number == 1 {
            Some(Mappers::MMC1(MMC1Mapper::new(header)))
        } else if number == 2 {
            Some(Mappers::UNRom(UNRomMapper::new(header)))
        } else if number == 3 {
            Some(Mappers::CNRom(CNRomMapper::new()))
        } else if number == 4 {
            Some(Mappers::MMC3(MMC3Mapper::new(header)))
        } else {
            None
        }
    }
}

} // verus!
