//! Bit-addressable 8-bit and 16-bit cells.
//!
//! A register is viewed as the unsigned integer it holds. Every operation is
//! described by the integer it leaves behind; all arithmetic wraps at the
//! width of the cell.

use vstd::prelude::*;
use vstd::string::StringExecFns;
use crate::bits::{
    bit_mask_u16,
    bit_mask_u8,
    lemma_masks_u16,
    lemma_masks_u8,
    low_mask_u16,
    low_mask_u8,
};

verus! {

/// A fixed-width cell. Only `Register<u8>` and `Register<u16>` have operations.
pub struct Register<T> {
    pub data: T,
}

/// `x` moved up by one bit with bit 0 of `bit` in the freed place.
pub open spec fn shift_in_u8(x: u8, bit: u8) -> u8 {
    (x << 1u8) | (bit & 1)
}

/// `x` moved up by one bit with bit 0 of `bit` in the freed place.
pub open spec fn shift_in_u16(x: u16, bit: u8) -> u16 {
    (x << 1u8) | (bit as u16 & 1)
}

/// `x` with its lower byte replaced.
pub open spec fn with_lower_byte(x: u16, value: u8) -> u16 {
    (x & 0xff00) | (value as u16)
}

/// `x` with its higher byte replaced.
pub open spec fn with_higher_byte(x: u16, value: u8) -> u16 {
    (x & 0x00ff) | ((value as u16) << 8u8)
}

/// The sixteen lower-case hexadecimal digits, in order.
pub open spec fn hex_digits() -> Seq<char> {
    seq!['0', '1', '2', '3', '4', '5', '6', '7', '8', '9', 'a', 'b', 'c', 'd', 'e', 'f']
}

/// The text `0x` followed by the two hexadecimal digits of `value`.
pub open spec fn hex_u8(value: u8) -> Seq<char> {
    seq!['0', 'x', hex_digits()[(value / 16) as int], hex_digits()[(value % 16) as int]]
}

/// The text `0x` followed by the four hexadecimal digits of `value`.
pub open spec fn hex_u16(value: u16) -> Seq<char> {
    seq![
        '0',
        'x',
        hex_digits()[(value / 4096) as int],
        hex_digits()[((value / 256) % 16) as int],
        hex_digits()[((value / 16) % 16) as int],
        hex_digits()[(value % 16) as int],
    ]
}

/// The hexadecimal digit for a value below sixteen, as a text of one character.
fn hex_digit(n: u8) -> (text: &'static str)
    requires
        n < 16,
    ensures
        text@ == seq![hex_digits()[n as int]],
{
    proof {
        reveal_strlit("0");
        reveal_strlit("1");
        reveal_strlit("2");
        reveal_strlit("3");
        reveal_strlit("4");
        reveal_strlit("5");
        reveal_strlit("6");
        reveal_strlit("7");
        reveal_strlit("8");
        reveal_strlit("9");
        reveal_strlit("a");
        reveal_strlit("b");
        reveal_strlit("c");
        reveal_strlit("d");
        reveal_strlit("e");
        reveal_strlit("f");
    }
    let text = match n {
        0 => "0",
        1 => "1",
        2 => "2",
        3 => "3",
        4 => "4",
        5 => "5",
        6 => "6",
        7 => "7",
        8 => "8",
        9 => "9",
        10 => "a",
        11 => "b",
        12 => "c",
        13 => "d",
        14 => "e",
        _ => "f",
    };
    assert(text@ =~= seq![hex_digits()[n as int]]);
    text
}

/// Appends `0x` and the two hexadecimal digits of `value`.
pub fn append_hex_u8(text: &mut String, value: u8)
    ensures
        final(text)@ == old(text)@ + hex_u8(value),
{
    proof {
        reveal_strlit("0x");
    }
    text.append("0x");
    text.append(hex_digit(value / 16));
    text.append(hex_digit(value % 16));
    assert(text@ =~= old(text)@ + hex_u8(value));
}

/// Appends `0x` and the four hexadecimal digits of `value`.
pub fn append_hex_u16(text: &mut String, value: u16)
    ensures
        final(text)@ == old(text)@ + hex_u16(value),
{
    proof {
        reveal_strlit("0x");
    }
    text.append("0x");
    text.append(hex_digit((value / 4096) as u8));
    text.append(hex_digit(((value / 256) % 16) as u8));
    text.append(hex_digit(((value / 16) % 16) as u8));
    text.append(hex_digit((value % 16) as u8));
    assert(text@ =~= old(text)@ + hex_u16(value));
}

/// The text `0x` and the two hexadecimal digits of `value`.
pub fn hex_text_u8(value: u8) -> (text: String)
    ensures
        text@ == hex_u8(value),
{
    let mut text = String::new();
    append_hex_u8(&mut text, value);
    assert(text@ =~= hex_u8(value));
    text
}

/// The text `0x` and the four hexadecimal digits of `value`.
pub fn hex_text_u16(value: u16) -> (text: String)
    ensures
        text@ == hex_u16(value),
{
    let mut text = String::new();
    append_hex_u16(&mut text, value);
    assert(text@ =~= hex_u16(value));
    text
}

impl Register<u8> {
    /// The value held.
    pub open spec fn view(&self) -> u8 {
        self.data
    }

    pub fn new() -> (r: Register<u8>)
        ensures
            r@ == 0,
    {
        Register { data: 0 }
    }

    pub fn get_width(&self) -> (w: u8)
        ensures
            w == 8,
    {
        8
    }

    pub fn load(&self) -> (value: u8)
        ensures
            value == self@,
    {
        self.data
    }

    /// Bit `pos` of the value, as 0 or 1.
    pub fn load_bit(&self, pos: u8) -> (bit: u8)
        requires
            pos < 8,
        ensures
            bit == (self@ >> pos) & 1,
            bit <= 1,
            (bit == 1) == (self@ & bit_mask_u8(pos) != 0),
    {
        proof {
            lemma_masks_u8(self.data, 0, pos);
        }
        (self.data >> pos) & 1
    }

    /// The `width` bits that start at bit `offset`, moved down to bit 0.
    pub fn load_bits(&self, offset: u8, width: u8) -> (bits: u8)
        requires
            offset < 8,
            width < 8,
        ensures
            bits == (self@ >> offset) & low_mask_u8(width),
            offset == 0 ==> bits == self@ & low_mask_u8(width),
    {
        proof {
            lemma_masks_u8(self.data, 0, width);
        }
        (self.data >> offset) & ((1u8 << width) - 1)
    }

    pub fn store(&mut self, value: u8)
        ensures
            final(self)@ == value,
    {
        self.data = value;
    }

    /// Sets bit `pos` where bit 0 of `value` is set, and clears it where not.
    pub fn store_bit(&mut self, pos: u8, value: u8)
        requires
            pos < 8,
        ensures
            final(self)@ == if value & 1 == 1 {
                old(self)@ | bit_mask_u8(pos)
            } else {
                old(self)@ & !bit_mask_u8(pos)
            },
    {
        proof {
            lemma_masks_u8(self.data, value, pos);
            
        }
        self.data = self.data & !(1u8 << pos) | ((value & 1) << pos);
    }

    /// Replaces the `width` bits that start at bit `offset` by the low bits of `value`.
    pub fn store_bits(&mut self, offset: u8, width: u8, value: u8)
        requires
            offset < 8,
            width < 8,
        ensures
            final(self)@ == old(self)@ & !(low_mask_u8(width) << offset) | ((value & low_mask_u8(
                width,
            )) << offset),
    {
        proof {
            lemma_masks_u8(self.data, 0, width);
        }
        let mask: u8 = (1u8 << width) - 1;
        self.data = self.data & !(mask << offset) | ((value & mask) << offset);
    }

    pub fn clear(&mut self)
        ensures
            final(self)@ == 0,
    {
        self.data = 0;
    }

    pub fn set_bit(&mut self, pos: u8)
        requires
            pos < 8,
        ensures
            final(self)@ == old(self)@ | bit_mask_u8(pos),
    {
        proof {
            lemma_masks_u8(0, 1, 0);
        }
        self.store_bit(pos, 1);
    }

    pub fn clear_bit(&mut self, pos: u8)
        requires
            pos < 8,
        ensures
            final(self)@ == old(self)@ & !bit_mask_u8(pos),
    {
        proof {
            lemma_masks_u8(0, 0, 0);
        }
        self.store_bit(pos, 0);
    }

    pub fn is_bit_set(&self, pos: u8) -> (set: bool)
        requires
            pos < 8,
        ensures
            set == (self@ & bit_mask_u8(pos) != 0),
    {
        self.load_bit(pos) == 1
    }

    pub fn increment(&mut self)
        ensures
            final(self)@ == old(self)@.wrapping_add(1),
    {
        self.add(1);
    }

    pub fn increment_by_2(&mut self)
        ensures
            final(self)@ == old(self)@.wrapping_add(2),
    {
        self.add(2);
    }

    /// Adds modulo 256.
    pub fn add(&mut self, value: u8)
        ensures
            final(self)@ == old(self)@.wrapping_add(value),
            final(self)@ == (old(self)@ + value) % 256,
    {
        self.data = self.data.wrapping_add(value);
    }

    pub fn decrement(&mut self)
        ensures
            final(self)@ == old(self)@.wrapping_sub(1),
    {
        self.sub(1);
    }

    pub fn decrement_by_2(&mut self)
        ensures
            final(self)@ == old(self)@.wrapping_sub(2),
    {
        self.sub(2);
    }

    /// Subtracts modulo 256.
    pub fn sub(&mut self, value: u8)
        ensures
            final(self)@ == old(self)@.wrapping_sub(value),
            final(self)@ == (old(self)@ - value) % 256,
    {
        self.data = self.data.wrapping_sub(value);
    }

    /// Shifts left by one, takes bit 0 of `value` in on the right and hands
    /// back the bit that left on the left.
    pub fn shift(&mut self, value: u8) -> (carry: u8)
        ensures
            carry == (old(self)@ >> 7u8) & 1,
            carry <= 1,
            final(self)@ == shift_in_u8(old(self)@, value),
    {
        let carry = self.load_bit(self.get_width() - 1);
        self.data = (self.data << 1u8) | (value & 1);
        carry
    }

    /// The value as text: `0x` and two lower-case hexadecimal digits.
    pub fn dump(&self) -> (text: String)
        ensures
            text@ == hex_u8(self@),
    {
        hex_text_u8(self.data)
    }
}

impl Register<u16> {
    /// The value held.
    pub open spec fn view(&self) -> u16 {
        self.data
    }

    pub fn new() -> (r: Register<u16>)
        ensures
            r@ == 0,
    {
        Register { data: 0 }
    }

    pub fn get_width(&self) -> (w: u8)
        ensures
            w == 16,
    {
        16
    }

    pub fn load(&self) -> (value: u16)
        ensures
            value == self@,
    {
        self.data
    }

    /// Bit `pos` of the value, as 0 or 1.
    pub fn load_bit(&self, pos: u8) -> (bit: u8)
        requires
            pos < 16,
        ensures
            bit == (self@ >> pos) & 1,
            bit <= 1,
            (bit == 1) == (self@ & bit_mask_u16(pos) != 0),
    {
        proof {
            lemma_masks_u16(self.data, 0, pos);
        }
        ((self.data >> pos) & 1) as u8
    }

    /// The `width` bits that start at bit `offset`, moved down to bit 0.
    pub fn load_bits(&self, offset: u8, width: u8) -> (bits: u16)
        requires
            offset < 16,
            width < 16,
        ensures
            bits == (self@ >> offset) & low_mask_u16(width),
            offset == 0 ==> bits == self@ & low_mask_u16(width),
    {
        proof {
            lemma_masks_u16(self.data, 0, width);
        }
        (self.data >> offset) & ((1u16 << width) - 1)
    }

    pub fn store(&mut self, value: u16)
        ensures
            final(self)@ == value,
    {
        self.data = value;
    }

    /// Sets bit `pos` where bit 0 of `value` is set, and clears it where not.
    pub fn store_bit(&mut self, pos: u8, value: u8)
        requires
            pos < 16,
        ensures
            final(self)@ == if value & 1 == 1 {
                old(self)@ | bit_mask_u16(pos)
            } else {
                old(self)@ & !bit_mask_u16(pos)
            },
    {
        proof {
            lemma_masks_u16(self.data, value as u16, pos);
            lemma_byte_low_bit(value);
        }
        self.data = self.data & !(1u16 << pos) | ((value as u16 & 1) << pos);
    }

    /// Replaces the `width` bits that start at bit `offset` by the low bits of `value`.
    pub fn store_bits(&mut self, offset: u8, width: u8, value: u16)
        requires
            offset < 16,
            width < 16,
        ensures
            final(self)@ == old(self)@ & !(low_mask_u16(width) << offset) | ((value & low_mask_u16(
                width,
            )) << offset),
    {
        proof {
            lemma_masks_u16(self.data, 0, width);
        }
        let mask: u16 = (1u16 << width) - 1;
        self.data = self.data & !(mask << offset) | ((value & mask) << offset);
    }

    pub fn clear(&mut self)
        ensures
            final(self)@ == 0,
    {
        self.data = 0;
    }

    pub fn set_bit(&mut self, pos: u8)
        requires
            pos < 16,
        ensures
            final(self)@ == old(self)@ | bit_mask_u16(pos),
    {
        proof {
            lemma_masks_u8(0, 1, 0);
        }
        self.store_bit(pos, 1);
    }

    pub fn clear_bit(&mut self, pos: u8)
        requires
            pos < 16,
        ensures
            final(self)@ == old(self)@ & !bit_mask_u16(pos),
    {
        proof {
            lemma_masks_u8(0, 0, 0);
        }
        self.store_bit(pos, 0);
    }

    pub fn is_bit_set(&self, pos: u8) -> (set: bool)
        requires
            pos < 16,
        ensures
            set == (self@ & bit_mask_u16(pos) != 0),
    {
        self.load_bit(pos) == 1
    }

    pub fn increment(&mut self)
        ensures
            final(self)@ == old(self)@.wrapping_add(1),
    {
        self.add(1);
    }

    pub fn increment_by_2(&mut self)
        ensures
            final(self)@ == old(self)@.wrapping_add(2),
    {
        self.add(2);
    }

    /// Adds modulo 65536.
    pub fn add(&mut self, value: u16)
        ensures
            final(self)@ == old(self)@.wrapping_add(value),
            final(self)@ == (old(self)@ + value) % 65536,
    {
        self.data = self.data.wrapping_add(value);
    }

    pub fn decrement(&mut self)
        ensures
            final(self)@ == old(self)@.wrapping_sub(1),
    {
        self.sub(1);
    }

    pub fn decrement_by_2(&mut self)
        ensures
            final(self)@ == old(self)@.wrapping_sub(2),
    {
        self.sub(2);
    }

    /// Subtracts modulo 65536.
    pub fn sub(&mut self, value: u16)
        ensures
            final(self)@ == old(self)@.wrapping_sub(value),
            final(self)@ == (old(self)@ - value) % 65536,
    {
        self.data = self.data.wrapping_sub(value);
    }

    /// Shifts left by one, takes bit 0 of `value` in on the right and hands
    /// back the bit that left on the left.
    pub fn shift(&mut self, value: u8) -> (carry: u8)
        ensures
            carry == (old(self)@ >> 15u8) & 1,
            carry <= 1,
            final(self)@ == shift_in_u16(old(self)@, value),
    {
        let carry = self.load_bit(self.get_width() - 1);
        self.data = (self.data << 1u8) | (value as u16 & 1);
        carry
    }

    /// Replaces bits 15 to 8 by `value`.
    pub fn store_higher_byte(&mut self, value: u8)
        ensures
            final(self)@ == with_higher_byte(old(self)@, value),
    {
        self.data = self.data & 0x00ff;
        self.data = self.data | ((value as u16) << 8u8);
    }

    /// Replaces bits 7 to 0 by `value`.
    pub fn store_lower_byte(&mut self, value: u8)
        ensures
            final(self)@ == with_lower_byte(old(self)@, value),
    {
        self.data = self.data & 0xff00;
        self.data = self.data | (value as u16);
    }

    /// The value as text: `0x` and four lower-case hexadecimal digits.
    pub fn dump(&self) -> (text: String)
        ensures
            text@ == hex_u16(self@),
    {
        hex_text_u16(self.data)
    }
}

/// Bit 0 of a byte is bit 0 of the byte widened to 16 bits.
proof fn lemma_byte_low_bit(value: u8)
    by (bit_vector)
    ensures
        (value as u16 & 1 == 1) == (value & 1 == 1),
{
}

} // verus!
