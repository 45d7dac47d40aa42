//! The screen of the browser shell: the picture is kept in memory for the
//! page to fetch.

use vstd::prelude::*;
use crate::default_display::DefaultDisplay;
use crate::display::{Display, DisplayEvent};

verus! {

pub struct WasmDisplay {
    picture: DefaultDisplay,
}

impl WasmDisplay {
    pub fn new() -> (display: WasmDisplay)
        ensures
            display.wf(),
            display.log() == Seq::<DisplayEvent>::empty(),
    {
        WasmDisplay { picture: DefaultDisplay::new() }
    }
}

impl Display for WasmDisplay {
    closed spec fn wf(&self) -> bool {
        self.picture.wf()
    }

    closed spec fn log(&self) -> Seq<DisplayEvent> {
        self.picture.log()
    }

    fn render_pixel(&mut self, x: u16, y: u16, c: u32) {
        self.picture.render_pixel(x, y, c);
    }

    fn vblank(&mut self) {
        self.picture.vblank();
    }

    fn copy_to_rgba_pixels(&self, pixels: &mut [u8]) {
        self.picture.copy_to_rgba_pixels(pixels);
    }
}

} // verus!
