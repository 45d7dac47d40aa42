//! Masks for single bits and bit fields, and the facts that tie them to shifts.

use vstd::prelude::*;

verus! {

/// The 8-bit value whose only set bit is bit `pos`.
pub open spec fn bit_mask_u8(pos: u8) -> u8 {
    if pos == 0 {
        0x01
    } else if pos == 1 {
        0x02
    } else if pos == 2 {
        0x04
    } else if pos == 3 {
        0x08
    } else if pos == 4 {
        0x10
    } else if pos == 5 {
        0x20
    } else if pos == 6 {
        0x40
    } else {
        0x80
    }
}

/// The 8-bit value whose set bits are the `width` lowest.
pub open spec fn low_mask_u8(width: u8) -> u8 {
    if width == 0 {
        0x00
    } else if width == 1 {
        0x01
    } else if width == 2 {
        0x03
    } else if width == 3 {
        0x07
    } else if width == 4 {
        0x0f
    } else if width == 5 {
        0x1f
    } else if width == 6 {
        0x3f
    } else {
        0x7f
    }
}

/// The 16-bit value whose only set bit is bit `pos`.
pub open spec fn bit_mask_u16(pos: u8) -> u16 {
    if pos < 8 {
        bit_mask_u8(pos) as u16
    } else if pos == 8 {
        0x0100
    } else if pos == 9 {
        0x0200
    } else if pos == 10 {
        0x0400
    } else if pos == 11 {
        0x0800
    } else if pos == 12 {
        0x1000
    } else if pos == 13 {
        0x2000
    } else if pos == 14 {
        0x4000
    } else {
        0x8000
    }
}

/// The 16-bit value whose set bits are the `width` lowest.
pub open spec fn low_mask_u16(width: u8) -> u16 {
    if width < 8 {
        low_mask_u8(width) as u16
    } else if width == 8 {
        0x00ff
    } else if width == 9 {
        0x01ff
    } else if width == 10 {
        0x03ff
    } else if width == 11 {
        0x07ff
    } else if width == 12 {
        0x0fff
    } else if width == 13 {
        0x1fff
    } else if width == 14 {
        0x3fff
    } else {
        0x7fff
    }
}

/// Shifts and masks on 8 bits.
pub proof fn lemma_masks_u8(x: u8, v: u8, pos: u8)
    by (bit_vector)
    requires
        pos < 8,
    ensures
        1u8 & 1 == 1,
        0u8 & 1 == 0,
        (1u8 << pos) == bit_mask_u8(pos),
        (1u8 << pos) >= 1,
        ((1u8 << pos) - 1) as u8 == low_mask_u8(pos),
        (x >> pos) & 1 <= 1,
        v & 1 <= 1,
        x >> 0u8 == x,
        ((x >> pos) & 1 == 1) == (x & bit_mask_u8(pos) != 0),
        x & !(1u8 << pos) | ((v & 1) << pos) == (if v & 1 == 1 {
            x | bit_mask_u8(pos)
        } else {
            x & !bit_mask_u8(pos)
        }),
{
}

/// Shifts and masks on 16 bits.
pub proof fn lemma_masks_u16(x: u16, v: u16, pos: u8)
    by (bit_vector)
    requires
        pos < 16,
    ensures
        (1u16 << pos) == bit_mask_u16(pos),
        (1u16 << pos) >= 1,
        ((1u16 << pos) - 1) as u16 == low_mask_u16(pos),
        (x >> pos) & 1 <= 1,
        v & 1 <= 1,
        x >> 0u8 == x,
        ((x >> pos) & 1 == 1) == (x & bit_mask_u16(pos) != 0),
        x & !(1u16 << pos) | ((v & 1) << pos) == (if v & 1 == 1 {
            x | bit_mask_u16(pos)
        } else {
            x & !bit_mask_u16(pos)
        }),
{
}

/// A value masked is at most the mask.
pub proof fn lemma_and_le_u8(x: u8, mask: u8)
    by (bit_vector)
    ensures
        x & mask <= mask,
        x & mask <= x,
{
}

/// A value masked is at most the mask.
pub proof fn lemma_and_le_u16(x: u16, mask: u16)
    by (bit_vector)
    ensures
        x & mask <= mask,
        x & mask <= x,
{
}

/// A value masked is at most the mask.
pub proof fn lemma_and_le_u32(x: u32, mask: u32)
    by (bit_vector)
    ensures
        x & mask <= mask,
        x & mask <= x,
{
}

} // verus!
