//! The 160x144 framebuffer: one byte per pixel, holding a shade index
//! 0..=3.

use vstd::prelude::*;

verus! {

/// Screen width in pixels.
pub const SCREEN_W: usize = 160;

/// Screen height in pixels.
pub const SCREEN_H: usize = 144;

/// The gray level of a shade index: 0 is lightest (255), 3 is darkest (0).
pub open spec fn shade_gray(shade: u8) -> u8 {
    if shade % 4 == 0 {
        255u8
    } else if shade % 4 == 1 {
        170u8
    } else if shade % 4 == 2 {
        85u8
    } else {
        0u8
    }
}

/// Maps a shade index to its gray level for presentation: 255, 170, 85, 0.
pub fn shade_level(shade: u8) -> (r: u8)
    ensures
        r == shade_gray(shade),
{
    match shade % 4 {
        0 => 255,
        1 => 170,
        2 => 85,
        _ => 0,
    }
}

/// A full frame of shade indices, row-major.
pub struct FrameBuffer {
    /// The pixels, `SCREEN_W * SCREEN_H` of them, each 0..=3.
    pub pixels: Vec<u8>,
}

impl FrameBuffer {
    /// The buffer covers the whole screen and every pixel is a shade
    /// index 0..=3.
    pub open spec fn wf(self) -> bool {
        &&& self.pixels@.len() == SCREEN_W * SCREEN_H
        &&& forall|i: int| 0 <= i < self.pixels@.len() ==> self.pixels@[i] <= 3
    }

    /// A black screen: every pixel at shade 0.
    pub fn new() -> (r: FrameBuffer)
        ensures
            r.wf(),
            forall|i: int| 0 <= i < r.pixels@.len() ==> r.pixels@[i] == 0,
    {
        let mut pixels: Vec<u8> = Vec::new();
        let mut i: usize = 0;
        while i < SCREEN_W * SCREEN_H
            invariant
                i <= SCREEN_W * SCREEN_H,
                pixels@.len() == i,
                forall|j: int| 0 <= j < i ==> pixels@[j] == 0,
            decreases SCREEN_W * SCREEN_H - i,
        {
            pixels.push(0);
            i = i + 1;
        }
        FrameBuffer { pixels }
    }

    /// Writes one pixel, keeping only the low two bits of the value.
    pub fn set(&mut self, x: usize, y: usize, value: u8)
        requires
            old(self).wf(),
            x < SCREEN_W,
            y < SCREEN_H,
        ensures
            final(self).wf(),
            final(self).pixels@ == old(self).pixels@.update((y * SCREEN_W + x) as int, value % 4),
    {
        self.pixels[y * SCREEN_W + x] = value % 4;
    }

    /// Reads one pixel, masked to the low two bits.
    pub fn get(&self, x: usize, y: usize) -> (r: u8)
        requires
            self.wf(),
            x < SCREEN_W,
            y < SCREEN_H,
        ensures
            r == self.pixels@[(y * SCREEN_W + x) as int] % 4,
    {
        self.pixels[y * SCREEN_W + x] % 4
    }

    /// Fills the whole screen with one shade, keeping only the low two
    /// bits of the value.
    pub fn clear(&mut self, value: u8)
        requires
            old(self).wf(),
        ensures
            final(self).wf(),
            final(self).pixels@.len() == old(self).pixels@.len(),
            forall|i: int| 0 <= i < final(self).pixels@.len() ==> final(self).pixels@[i] == value
                % 4,
    {
        let c = value % 4;
        let mut i: usize = 0;
        let n = self.pixels.len();
        while i < n
            invariant
                i <= n,
                self.pixels@.len() == n,
                forall|j: int| 0 <= j < i ==> self.pixels@[j] == c,
                c == value % 4,
            decreases n - i,
        {
            self.pixels[i] = c;
            i = i + 1;
        }
    }
}

} // verus!
