//! Sprites: four bytes each in object attribute memory.

use vstd::prelude::*;
use crate::bits::lemma_and_le_u8;
use crate::memory::Memory;

verus! {

/// One sprite: its top row, its tile, its attributes and its left column.
#[derive(Clone, Copy)]
pub struct Sprite {
    pub byte0: u8,
    pub byte1: u8,
    pub byte2: u8,
    pub byte3: u8,
}

impl Sprite {
    pub open spec fn y_spec(self) -> u8 {
        self.byte0
    }

    pub open spec fn x_spec(self) -> u8 {
        self.byte3
    }

    pub open spec fn tile_index_spec(self) -> u8 {
        self.byte1
    }

    /// Bits 1 and 0 of the attributes select one of the four sprite palettes.
    pub open spec fn palette_num_spec(self) -> u8 {
        self.byte2 & 0x3
    }

    /// Bit 5 of the attributes: 1 puts the sprite behind the background.
    pub open spec fn priority_spec(self) -> u8 {
        (self.byte2 >> 5u8) & 1
    }

    /// Bit 6 of the attributes.
    pub open spec fn horizontal_flip_spec(self) -> bool {
        (self.byte2 >> 6u8) & 1 == 1
    }

    /// Bit 7 of the attributes.
    pub open spec fn vertical_flip_spec(self) -> bool {
        (self.byte2 >> 7u8) & 1 == 1
    }

    /// Whether row `y` of the screen crosses a sprite of this height.
    pub open spec fn on_spec(self, y: u8, height: u8) -> bool {
        self.byte0 <= y < self.byte0 + height
    }

    /// The row of the sprite that lies on row `y` of the screen, counted
    /// from the bottom where the sprite is flipped vertically.
    pub open spec fn y_in_sprite_spec(self, y: u8, height: u8) -> u8 {
        if self.vertical_flip_spec() {
            (height - 1 - (y - self.byte0)) as u8
        } else {
            (y - self.byte0) as u8
        }
    }

    pub fn get_y(&self) -> (y: u8)
        ensures
            y == self.y_spec(),
    {
        self.byte0
    }

    pub fn get_x(&self) -> (x: u8)
        ensures
            x == self.x_spec(),
    {
        self.byte3
    }

    pub fn get_tile_index(&self) -> (tile: u8)
        ensures
            tile == self.tile_index_spec(),
    {
        self.byte1
    }

    pub fn get_palette_num(&self) -> (palette: u8)
        ensures
            palette == self.palette_num_spec(),
            palette <= 3,
    {
        proof {
            lemma_and_le_u8(self.byte2, 0x3);
        }
        self.byte2 & 0x3
    }

    pub fn get_priority(&self) -> (priority: u8)
        ensures
            priority == self.priority_spec(),
    {
        (self.byte2 >> 5u8) & 1
    }

    pub fn horizontal_flip(&self) -> (flip: bool)
        ensures
            flip == self.horizontal_flip_spec(),
    {
        ((self.byte2 >> 6u8) & 1) == 1
    }

    pub fn vertical_flip(&self) -> (flip: bool)
        ensures
            flip == self.vertical_flip_spec(),
    {
        ((self.byte2 >> 7u8) & 1) == 1
    }

    pub fn on(&self, y: u8, height: u8) -> (on: bool)
        ensures
            on == self.on_spec(y, height),
    {
        (y >= self.get_y()) && ((y as u16) < self.get_y() as u16 + height as u16)
    }

    pub fn get_y_in_sprite(&self, y: u8, height: u8) -> (row: u8)
        requires
            self.on_spec(y, height),
        ensures
            row == self.y_in_sprite_spec(y, height),
            row < height,
    {
        if self.vertical_flip() {
            height - 1 - (y - self.get_y())
        } else {
            y - self.get_y()
        }
    }
}

/// The sprite that object attribute memory holds at a place.
pub open spec fn sprite_at(oam: Seq<u8>, index: u8) -> Sprite {
    Sprite {
        byte0: oam[index * 4],
        byte1: oam[index * 4 + 1],
        byte2: oam[index * 4 + 2],
        byte3: oam[index * 4 + 3],
    }
}

/// Object attribute memory with a sprite written at a place.
pub open spec fn with_sprite(oam: Seq<u8>, index: u8, sprite: Sprite) -> Seq<u8> {
    oam.update(index * 4, sprite.byte0).update(index * 4 + 1, sprite.byte1).update(
        index * 4 + 2,
        sprite.byte2,
    ).update(index * 4 + 3, sprite.byte3)
}

/// Object attribute memory: up to 64 sprites of four bytes.
pub struct SpritesManager {
    memory: Memory,
}

impl SpritesManager {
    /// The bytes held.
    pub closed spec fn view(&self) -> Seq<u8> {
        self.memory@
    }

    /// The memory holds whole sprites, at most 64.
    pub open spec fn wf(&self) -> bool {
        self@.len() % 4 == 0 && self@.len() <= 256
    }

    pub fn new(memory: Memory) -> (manager: SpritesManager)
        requires
            memory@.len() % 4 == 0,
            memory@.len() <= 256,
        ensures
            manager@ == memory@,
            manager.wf(),
    {
        SpritesManager { memory: memory }
    }

    pub fn load(&self, address: u8) -> (value: u8)
        requires
            address < self@.len(),
        ensures
            value == self@[address as int],
    {
        self.memory.load(address as u32)
    }

    pub fn store(&mut self, address: u8, value: u8)
        requires
            address < old(self)@.len(),
        ensures
            final(self)@ == old(self)@.update(address as int, value),
    {
        self.memory.store(address as u32, value);
    }

    /// The number of sprites held.
    pub fn get_num(&self) -> (n: u8)
        requires
            self.wf(),
        ensures
            n == self@.len() / 4,
    {
        (self.memory.capacity() / 4) as u8
    }

    pub fn get(&self, index: u8) -> (sprite: Sprite)
        requires
            self.wf(),
            index * 4 + 3 < self@.len(),
        ensures
            sprite == sprite_at(self@, index),
    {
        Sprite {
            byte0: self.load(index * 4 + 0),
            byte1: self.load(index * 4 + 1),
            byte2: self.load(index * 4 + 2),
            byte3: self.load(index * 4 + 3),
        }
    }

    pub fn copy(&mut self, index: u8, sprite: Sprite)
        requires
            old(self).wf(),
            index * 4 + 3 < old(self)@.len(),
        ensures
            final(self)@ == with_sprite(old(self)@, index, sprite),
    {
        self.store(index * 4 + 0, sprite.byte0);
        self.store(index * 4 + 1, sprite.byte1);
        self.store(index * 4 + 2, sprite.byte2);
        self.store(index * 4 + 3, sprite.byte3);
    }

    /// Sets every byte to 0xFF.
    pub fn reset(&mut self)
        requires
            old(self).wf(),
        ensures
            final(self)@ == Seq::new(old(self)@.len(), |i: int| 0xffu8),
    {
        let n = self.get_num();
        let mut i: u8 = 0;
        while i < n
            invariant
                i <= n,
                n == self@.len() / 4,
                self@.len() == old(self)@.len(),
                self.wf(),
                forall|j: int| 0 <= j < i * 4 ==> self@[j] == 0xffu8,
            decreases n - i,
        {
            self.store(i * 4 + 0, 0xff);
            self.store(i * 4 + 1, 0xff);
            self.store(i * 4 + 2, 0xff);
            self.store(i * 4 + 3, 0xff);
            i += 1;
        }
        assert(self@ =~= Seq::new(old(self)@.len(), |i: int| 0xffu8));
    }
}

} // verus!
