//! A screen that keeps the picture in memory.

use vstd::prelude::*;
use crate::display::{
    picture_after,
    rgba_of,
    Display,
    DisplayEvent,
    PIXELS_CAPACITY,
    PIXEL_BYTES,
    RGBA_CAPACITY,
    SCREEN_WIDTH,
};

verus! {

proof fn lemma_colour_parts(c: u32)
    by (bit_vector)
    ensures
        (c >> 16u32) & 0xff <= 0xff,
        (c >> 8u32) & 0xff <= 0xff,
        c & 0xff <= 0xff,
{
}

pub struct DefaultDisplay {
    pixels: Vec<u8>,
    calls: Ghost<Seq<DisplayEvent>>,
}

impl DefaultDisplay {
    pub fn new() -> (display: DefaultDisplay)
        ensures
            display.wf(),
            display.log() == Seq::<DisplayEvent>::empty(),
    {
        let display = DefaultDisplay { pixels: vec![0u8; 184320], calls: Ghost(Seq::empty()) };
        assert(display.pixels@ =~= picture_after(display.calls@));
        display
    }
}

impl Display for DefaultDisplay {
    /// The picture held is the picture that the calls have left.
    closed spec fn wf(&self) -> bool {
        &&& self.pixels@.len() == PIXELS_CAPACITY
        &&& self.pixels@ == picture_after(self.calls@)
    }

    closed spec fn log(&self) -> Seq<DisplayEvent> {
        self.calls@
    }

    fn render_pixel(&mut self, x: u16, y: u16, c: u32) {
        proof {
            lemma_colour_parts(c);
        }
        let r = ((c >> 16u32) & 0xff) as u8;
        let g = ((c >> 8u32) & 0xff) as u8;
        let b = (c & 0xff) as u8;
        let base_index = (y as u32 * SCREEN_WIDTH + x as u32) * PIXEL_BYTES;
        self.pixels[(base_index + 2) as usize] = r;
        self.pixels[(base_index + 1) as usize] = g;
        self.pixels[(base_index + 0) as usize] = b;
        proof {
            let event = DisplayEvent::Pixel { x, y, c };
            let log = self.calls@.push(event);
            assert(log.drop_last() =~= self.calls@);
            assert(log.last() == event);
            self.calls@ = log;
        }
    }

    fn vblank(&mut self) {
        proof {
            let log = self.calls@.push(DisplayEvent::Vblank);
            assert(log.drop_last() =~= self.calls@);
            self.calls@ = log;
        }
    }

    fn copy_to_rgba_pixels(&self, pixels: &mut [u8]) {
        let mut base_index: usize = 0;
        while base_index < 61440
            invariant
                base_index <= 61440,
                self.pixels@.len() == PIXELS_CAPACITY,
                self.pixels@ == picture_after(self.calls@),
                pixels@.len() == old(pixels)@.len(),
                pixels@.len() >= RGBA_CAPACITY,
                forall|i: int|
                    0 <= i < base_index * 4 ==> pixels@[i] == rgba_of(
                        picture_after(self.calls@),
                        old(pixels)@,
                    )[i],
                forall|i: int| base_index * 4 <= i < pixels@.len() ==> pixels@[i] == old(pixels)@[i],
            decreases 61440 - base_index,
        {
            pixels[base_index * 4 + 0] = self.pixels[base_index * 3 + 0];
            pixels[base_index * 4 + 1] = self.pixels[base_index * 3 + 1];
            pixels[base_index * 4 + 2] = self.pixels[base_index * 3 + 2];
            pixels[base_index * 4 + 3] = 255;
            base_index += 1;
        }
        assert(pixels@ =~= rgba_of(picture_after(self.calls@), old(pixels)@));
    }
}

} // verus!
