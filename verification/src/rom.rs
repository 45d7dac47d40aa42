//! A cartridge image: a 16-byte header, then the program banks, then the
//! character banks.
//!
//! An image shorter than its header or its banks claim is read as if the
//! missing bytes were zero.

use vstd::prelude::*;
use crate::bits::{lemma_masks_u8, low_mask_u8};
use crate::mapper::{Mapper, MapperFactory, Mappers};
use crate::memory::Memory;

verus! {

pub const HEADER_SIZE: usize = 16;

/// How the four nametables share the console's video memory.
#[derive(Clone, Copy, Debug, PartialEq, Eq, Structural)]
pub enum Mirrorings {
    SingleScreen,
    Horizontal,
    Vertical,
    FourScreen,
}

/// The header starts with the letters N, E, S and the byte 0x1A.
pub open spec fn header_is_nes(header: Seq<u8>) -> bool {
    header[0] == 0x4e && header[1] == 0x45 && header[2] == 0x53 && header[3] == 0x1a
}

/// The mapper number: its low nibble is the high nibble of byte 6, its high
/// nibble the high nibble of byte 7.
pub open spec fn header_mapper_num(header: Seq<u8>) -> u8 {
    (header[7] & 0xF0) | (header[6] >> 4u8)
}

/// Bit 3 of byte 6 asks for four screens; otherwise bit 0 tells vertical
/// from horizontal.
pub open spec fn header_mirroring(header: Seq<u8>) -> Mirrorings {
    if header[6] & 0x08 != 0 {
        Mirrorings::FourScreen
    } else if header[6] & 0x01 == 0 {
        Mirrorings::Horizontal
    } else {
        Mirrorings::Vertical
    }
}

/// 256 to the power of `n`, for `n` up to 7.
pub open spec fn pow_256(n: nat) -> int {
    if n == 0 {
        0x1
    } else if n == 1 {
        0x100
    } else if n == 2 {
        0x1_0000
    } else if n == 3 {
        0x100_0000
    } else if n == 4 {
        0x1_0000_0000
    } else if n == 5 {
        0x100_0000_0000
    } else if n == 6 {
        0x1_0000_0000_0000
    } else {
        0x100_0000_0000_0000
    }
}

/// The `n` bytes of the header from byte `from` on as one number, the
/// first byte being the highest.
pub open spec fn header_number(header: Seq<u8>, from: int, n: nat) -> int
    decreases n,
{
    if n == 0 {
        0
    } else {
        256 * header_number(header, from, (n - 1) as nat) + header[from + n - 1]
    }
}

proof fn lemma_shift_is_times_256(value: u64, byte: u8)
    by (bit_vector)
    requires
        value < 0x1_0000_0000_0000,
    ensures
        (value << 8u8) | byte as u64 == 256 * value + byte,
{
}

/// The first `HEADER_SIZE` bytes of an image, with zero for each that is missing.
pub open spec fn image_header(image: Seq<u8>) -> Seq<u8> {
    Seq::new(
        HEADER_SIZE as nat,
        |i: int|
            if i < image.len() {
                image[i]
            } else {
                0u8
            },
    )
}

/// What follows the header in an image.
pub open spec fn image_banks(image: Seq<u8>) -> Seq<u8> {
    if image.len() >= HEADER_SIZE {
        image.skip(HEADER_SIZE as int)
    } else {
        Seq::empty()
    }
}

proof fn lemma_header_bits(byte1: u8, byte2: u8)
    by (bit_vector)
    ensures
        (((byte2 >> 4u8) & low_mask_u8(4)) << 4u8) | ((byte1 >> 4u8) & low_mask_u8(4)) == (byte2
            & 0xF0) | (byte1 >> 4u8),
        ((byte1 >> 3u8) & low_mask_u8(1) == 1) == (byte1 & 0x08 != 0),
        ((byte1 >> 0u8) & low_mask_u8(1) == 0) == (byte1 & 0x01 == 0),
{
}

/// The 16 bytes at the start of an image.
pub struct RomHeader {
    data: Vec<u8>,
}

impl RomHeader {
    /// The header's bytes.
    pub closed spec fn view(&self) -> Seq<u8> {
        self.data@
    }

    pub open spec fn wf(&self) -> bool {
        self@.len() == HEADER_SIZE
    }

    pub open spec fn prg_rom_bank_num_spec(&self) -> u8 {
        self@[4]
    }

    pub open spec fn chr_rom_bank_num_spec(&self) -> u8 {
        self@[5]
    }

    /// Takes the header from the start of an image.
    pub fn new(vec: &Vec<u8>) -> (header: RomHeader)
        ensures
            header.wf(),
            header@ == image_header(vec@),
    {
        let mut header = RomHeader { data: Vec::new() };
        let mut i: usize = 0;
        while i < HEADER_SIZE
            invariant
                i <= HEADER_SIZE,
                header.data@.len() == i,
                forall|j: int| 0 <= j < i ==> header.data@[j] == image_header(vec@)[j],
            decreases HEADER_SIZE - i,
        {
            let byte = if i < vec.len() {
                vec[i]
            } else {
                0
            };
            header.data.push(byte);
            i += 1;
        }
        assert(header@ =~= image_header(vec@));
        header
    }

    pub fn load(&self, address: u32) -> (value: u8)
        requires
            self.wf(),
            address < HEADER_SIZE,
        ensures
            value == self@[address as int],
    {
        self.data[address as usize]
    }

    pub fn is_nes(&self) -> (nes: bool)
        requires
            self.wf(),
        ensures
            nes == header_is_nes(self@),
    {
        self.load(0) == 0x4e && self.load(1) == 0x45 && self.load(2) == 0x53
            && self.magic_number() == 0x1a
    }

    pub fn magic_number(&self) -> (value: u8)
        requires
            self.wf(),
        ensures
            value == self@[3],
    {
        self.load(3)
    }

    /// The number of 16 KiB program banks.
    pub fn prg_rom_bank_num(&self) -> (n: u8)
        requires
            self.wf(),
        ensures
            n == self.prg_rom_bank_num_spec(),
    {
        self.load(4)
    }

    /// The number of 8 KiB character banks.
    pub fn chr_rom_bank_num(&self) -> (n: u8)
        requires
            self.wf(),
        ensures
            n == self.chr_rom_bank_num_spec(),
    {
        self.load(5)
    }

    pub fn has_chr_rom(&self) -> (has: bool)
        requires
            self.wf(),
        ensures
            has == (self@[5] > 0),
    {
        self.chr_rom_bank_num() > 0
    }

    pub fn control_byte1(&self) -> (value: u8)
        requires
            self.wf(),
        ensures
            value == self@[6],
    {
        self.load(6)
    }

    pub fn control_byte2(&self) -> (value: u8)
        requires
            self.wf(),
        ensures
            value == self@[7],
    {
        self.load(7)
    }

    /// The number of 8 KiB banks of cartridge memory.
    pub fn ram_bank_num(&self) -> (n: u8)
        requires
            self.wf(),
        ensures
            n == self@[8],
    {
        self.load(8)
    }

    /// The bytes 9 to 15, which no cartridge uses, as one number, byte 9
    /// being the highest.
    pub fn unused_field(&self) -> (value: u64)
        requires
            self.wf(),
        ensures
            value == header_number(self@, 9, 7),
    {
        let mut value: u64 = 0;
        let mut i: u32 = 0;
        while i < 7
            invariant
                i <= 7,
                self.wf(),
                value == header_number(self@, 9, i as nat),
                value < pow_256(i as nat),
            decreases 7 - i,
        {
            proof {
                lemma_shift_is_times_256(value, self@[9 + i]);
            }
            value = (value << 8u8) | self.load(9 + i) as u64;
            i += 1;
        }
        value
    }

    /// Bit 1 of byte 6: the cartridge keeps its memory on a battery.
    pub fn battery_backed_ram(&self) -> (bit: u8)
        requires
            self.wf(),
        ensures
            bit == (self@[6] >> 1u8) & low_mask_u8(1),
    {
        self.extract_bits(self.control_byte1(), 1, 1)
    }

    /// Bit 2 of byte 6: 512 bytes stand between the header and the banks.
    pub fn trainer_512_bytes(&self) -> (bit: u8)
        requires
            self.wf(),
        ensures
            bit == (self@[6] >> 2u8) & low_mask_u8(1),
    {
        self.extract_bits(self.control_byte1(), 2, 1)
    }

    pub fn is_horizontal_mirroring(&self) -> (horizontal: bool)
        requires
            self.wf(),
        ensures
            horizontal == (header_mirroring(self@) == Mirrorings::Horizontal),
    {
        match self.mirroring_type() {
            Mirrorings::Horizontal => true,
            _ => false,
        }
    }

    /// The `size` bits of `value` that start at bit `offset`.
    pub fn extract_bits(&self, value: u8, offset: u8, size: u8) -> (bits: u8)
        requires
            offset < 8,
            size < 8,
        ensures
            bits == (value >> offset) & low_mask_u8(size),
    {
        proof {
            lemma_masks_u8(0, 0, size);
        }
        (value >> offset) & ((1u8 << size) - 1)
    }

    pub fn mirroring_type(&self) -> (mirroring: Mirrorings)
        requires
            self.wf(),
        ensures
            mirroring == header_mirroring(self@),
    {
        proof {
            lemma_header_bits(self@[6], self@[7]);
        }
        if self.four_screen_mirroring() {
            Mirrorings::FourScreen
        } else if self.extract_bits(self.control_byte1(), 0, 1) == 0 {
            Mirrorings::Horizontal
        } else {
            Mirrorings::Vertical
        }
    }

    pub fn four_screen_mirroring(&self) -> (four: bool)
        requires
            self.wf(),
        ensures
            four == (self@[6] & 0x08 != 0),
    {
        proof {
            lemma_header_bits(self@[6], self@[7]);
        }
        self.extract_bits(self.control_byte1(), 3, 1) == 1
    }

    pub fn mapper_num(&self) -> (number: u8)
        requires
            self.wf(),
        ensures
            number == header_mapper_num(self@),
    {
        proof {
            lemma_header_bits(self@[6], self@[7]);
        }
        let lower_bits = self.extract_bits(self.control_byte1(), 4, 4);
        let higher_bits = self.extract_bits(self.control_byte2(), 4, 4);
        (higher_bits << 4u8) | lower_bits
    }
}

/// What a cartridge holds.
pub struct RomState {
    /// The 16 header bytes.
    pub header: Seq<u8>,
    /// The program banks followed by the character banks.
    pub data: Seq<u8>,
    /// The mapper that the header asks for; `None` where its number is not known.
    pub mapper: Option<Mappers>,
}

impl RomState {
    pub open spec fn wf(self) -> bool {
        self.header.len() == HEADER_SIZE
    }

    /// The cartridge that an image describes, at power-on.
    pub open spec fn of_image(image: Seq<u8>) -> RomState {
        RomState {
            header: image_header(image),
            data: image_banks(image),
            mapper: MapperFactory::create_spec(image_header(image)),
        }
    }

    /// The byte at an offset behind the header, zero past the end.
    pub open spec fn byte_at(self, offset: int) -> u8 {
        if 0 <= offset < self.data.len() {
            self.data[offset]
        } else {
            0
        }
    }

    /// Where in `data` a read at `address` looks: character banks follow
    /// the program banks.
    pub open spec fn offset_of(self, address: u32) -> int {
        match self.mapper {
            Some(mapper) => if address < 0x2000 {
                self.header[4] * 0x4000 + mapper.map_for_chr_rom_spec(address)
            } else {
                mapper.map_spec(address) as int
            },
            None => -1,
        }
    }

    /// What a read through the mapper returns.
    pub open spec fn load(self, address: u32) -> u8 {
        self.byte_at(self.offset_of(address))
    }

    /// The cartridge after a write into cartridge space.
    pub open spec fn after_store(self, address: u32, value: u8) -> RomState {
        match self.mapper {
            Some(mapper) => RomState { mapper: Some(mapper.after_store(address, value)), ..self },
            None => self,
        }
    }

    /// The header names an iNES image and a mapper that the console knows.
    pub open spec fn valid(self) -> bool {
        header_is_nes(self.header) && self.mapper.is_some()
    }

    pub open spec fn has_chr_rom(self) -> bool {
        self.header[5] > 0
    }

    /// The mapper's mirroring where it selects one, else the header's.
    pub open spec fn mirroring_type(self) -> Mirrorings {
        match self.mapper {
            Some(mapper) => if mapper.has_mirroring_type_spec() {
                mapper.mirroring_type_spec()
            } else {
                header_mirroring(self.header)
            },
            None => header_mirroring(self.header),
        }
    }

    /// The cartridge after one tick of the mapper's scanline counter.
    pub open spec fn after_irq_tick(self) -> RomState {
        match self.mapper {
            Some(mapper) => RomState { mapper: Some(mapper.after_drive_irq_counter()), ..self },
            None => self,
        }
    }

    /// Whether that tick raises an interrupt.
    pub open spec fn irq_on_tick(self) -> bool {
        match self.mapper {
            Some(mapper) => mapper.irq_on_drive(),
            None => false,
        }
    }
}

/// A cartridge: header, banks and mapper.
pub struct Rom {
    header: RomHeader,
    memory: Memory,
    mapper: Option<Mappers>,
}

impl Rom {
    pub closed spec fn view(&self) -> RomState {
        RomState { header: self.header@, data: self.memory@, mapper: self.mapper }
    }

    /// Reads an image. Every image is taken; `valid` tells whether the
    /// console will run it.
    pub fn new(data: Vec<u8>) -> (rom: Rom)
        ensures
            rom@ == RomState::of_image(data@),
            rom@.wf(),
    {
        let header = RomHeader::new(&data);
        let mapper = MapperFactory::create(&header);
        let mut banks: Vec<u8> = Vec::new();
        let mut i: usize = HEADER_SIZE;
        while i < data.len()
            invariant
                HEADER_SIZE <= i,
                data.len() >= HEADER_SIZE ==> i <= data.len(),
                banks@.len() == if i <= data.len() {
                    i - HEADER_SIZE
                } else {
                    0
                },
                forall|j: int| 0 <= j < banks@.len() ==> banks@[j] == data@[j + HEADER_SIZE],
            decreases data.len() - i,
        {
            banks.push(data[i]);
            i += 1;
        }
        proof {
            if data@.len() >= HEADER_SIZE {
                assert(i == data@.len());
                assert(banks@.len() == data@.skip(HEADER_SIZE as int).len());
                assert forall|j: int| 0 <= j < banks@.len() implies banks@[j] == data@.skip(
                    HEADER_SIZE as int,
                )[j] by {}
            }
        }
        assert(banks@ =~= image_banks(data@));
        Rom { header: header, memory: Memory::new(banks), mapper: mapper }
    }

    /// Reads through the mapper: below 0x2000 from the character banks,
    /// from 0x8000 on from the program banks.
    pub fn load(&self, address: u32) -> (value: u8)
        requires
            self@.wf(),
            address < 0x2000 || 0x8000 <= address <= 0xFFFF,
        ensures
            value == self@.load(address),
    {
        match &self.mapper {
            Some(mapper) => {
                let address_in_rom: u32 = if address < 0x2000 {
                    self.header.prg_rom_bank_num() as u32 * 0x4000 + mapper.map_for_chr_rom(
                        address,
                    )
                } else {
                    mapper.map(address)
                };
                self.load_without_mapping(address_in_rom)
            },
            None => 0,
        }
    }

    /// The byte at an offset behind the header, zero past the end.
    pub fn load_without_mapping(&self, address: u32) -> (value: u8)
        ensures
            value == self@.byte_at(address as int),
    {
        if self.memory.contains(address) {
            self.memory.load(address)
        } else {
            0
        }
    }

    /// A write into cartridge space goes to the mapper's registers.
    pub fn store(&mut self, address: u32, value: u8)
        ensures
            final(self)@ == old(self)@.after_store(address, value),
    {
        match &mut self.mapper {
            Some(mapper) => mapper.store(address, value),
            None => {},
        }
    }

    pub fn valid(&self) -> (valid: bool)
        requires
            self@.wf(),
        ensures
            valid == self@.valid(),
    {
        self.header.is_nes() && self.mapper.is_some()
    }

    pub fn has_chr_rom(&self) -> (has: bool)
        requires
            self@.wf(),
        ensures
            has == self@.has_chr_rom(),
    {
        self.header.has_chr_rom()
    }

    pub fn mirroring_type(&self) -> (mirroring: Mirrorings)
        requires
            self@.wf(),
        ensures
            mirroring == self@.mirroring_type(),
    {
        match &self.mapper {
            Some(mapper) => if mapper.has_mirroring_type() {
                mapper.mirroring_type()
            } else {
                self.header.mirroring_type()
            },
            None => self.header.mirroring_type(),
        }
    }

    /// Ticks the mapper's scanline counter and tells whether it raises an interrupt.
    pub fn irq_interrupted(&mut self) -> (irq: bool)
        ensures
            final(self)@ == old(self)@.after_irq_tick(),
            irq == old(self)@.irq_on_tick(),
    {
        match &mut self.mapper {
            Some(mapper) => mapper.drive_irq_counter(),
            None => false,
        }
    }
}

} // verus!
