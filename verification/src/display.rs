//! The picture sink: what the console hands to a screen.

use vstd::prelude::*;

verus! {

pub const SCREEN_WIDTH: u32 = 256;

pub const SCREEN_HEIGHT: u32 = 240;

pub const PIXEL_BYTES: u32 = 3;

/// Three bytes for each pixel of the screen.
pub const PIXELS_CAPACITY: usize = 184320;

/// Four bytes for each pixel of the screen.
pub const RGBA_CAPACITY: usize = 245760;

/// One call made on a display.
pub enum DisplayEvent {
    /// A pixel at column `x` of row `y` takes the 24-bit colour `c`.
    Pixel { x: u16, y: u16, c: u32 },
    /// The frame is complete.
    Vblank,
}

/// The red part of a 24-bit colour.
pub open spec fn red_of(c: u32) -> u8 {
    ((c >> 16u32) & 0xff) as u8
}

/// The green part of a 24-bit colour.
pub open spec fn green_of(c: u32) -> u8 {
    ((c >> 8u32) & 0xff) as u8
}

/// The blue part of a 24-bit colour.
pub open spec fn blue_of(c: u32) -> u8 {
    (c & 0xff) as u8
}

/// A picture with one pixel repainted. A pixel has three bytes, blue first;
/// the pixels lie row by row.
pub open spec fn paint(picture: Seq<u8>, x: u16, y: u16, c: u32) -> Seq<u8> {
    let base = (y * SCREEN_WIDTH + x) * PIXEL_BYTES;
    picture.update(base + 2, red_of(c)).update(base + 1, green_of(c)).update(base, blue_of(c))
}

/// The picture that a log of calls leaves: black where nothing was painted,
/// else what was painted last.
pub open spec fn picture_after(log: Seq<DisplayEvent>) -> Seq<u8>
    decreases log.len(),
{
    if log.len() == 0 {
        Seq::new(PIXELS_CAPACITY as nat, |i: int| 0u8)
    } else {
        match log.last() {
            DisplayEvent::Pixel { x, y, c } => paint(picture_after(log.drop_last()), x, y, c),
            DisplayEvent::Vblank => picture_after(log.drop_last()),
        }
    }
}

/// The first `RGBA_CAPACITY` bytes of `before` replaced by the picture with
/// four bytes to the pixel, the fourth being 255.
pub open spec fn rgba_of(picture: Seq<u8>, before: Seq<u8>) -> Seq<u8> {
    Seq::new(
        before.len(),
        |i: int|
            if i < RGBA_CAPACITY {
                if i % 4 == 3 {
                    255u8
                } else {
                    picture[(i / 4) * 3 + i % 4]
                }
            } else {
                before[i]
            },
    )
}

/// A screen. It is known by the calls made on it, oldest first.
pub trait Display: Sized {
    spec fn wf(&self) -> bool;

    /// Every call made on the display so far.
    spec fn log(&self) -> Seq<DisplayEvent>;

    fn render_pixel(&mut self, x: u16, y: u16, c: u32)
        requires
            old(self).wf(),
            x < SCREEN_WIDTH,
            y < SCREEN_HEIGHT,
            c <= 0xFFFFFF,
        ensures
            final(self).wf(),
            final(self).log() == old(self).log().push(DisplayEvent::Pixel { x, y, c }),
    ;

    fn vblank(&mut self)
        requires
            old(self).wf(),
        ensures
            final(self).wf(),
            final(self).log() == old(self).log().push(DisplayEvent::Vblank),
    ;

    /// Writes the picture that the calls so far have left into `pixels`,
    /// four bytes for each pixel.
    fn copy_to_rgba_pixels(&self, pixels: &mut [u8])
        requires
            self.wf(),
            old(pixels)@.len() >= RGBA_CAPACITY,
        ensures
            final(pixels)@ == rgba_of(picture_after(self.log()), old(pixels)@),
    ;
}

} // verus!
