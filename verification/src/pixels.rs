//! A plain 4x4 RGBA buffer: the simplest sink a decoded block can be
//! written into, and the one the crate's own tests read back from.

use vstd::prelude::*;

use crate::colourblock::RawColor4x4Block;

verus! {

/// A 4x4 pixel buffer with exactly four channels per pixel, stored
/// row-major as 64 bytes: channel `ch` of the pixel at `(x, y)` lives at
/// offset `(y*4 + x)*4 + ch`.
pub struct Rgba4x4 {
    data: Vec<u8>,
}

impl Rgba4x4 {
    /// A fresh buffer with every channel zero.
    pub fn new() -> (out: Rgba4x4)
        ensures
            out.channel_count() == 4,
            forall|x: int, y: int, ch: int| out.pixel(x, y, ch) == 0u8,
    {
        let mut data: Vec<u8> = Vec::new();
        let mut i: usize = 0;
        while i < 64
            invariant
                i <= 64,
                data@.len() == i,
                forall|j: int| 0 <= j < i ==> data@[j] == 0u8,
            decreases 64 - i,
        {
            data.push(0);
            i = i + 1;
        }
        Rgba4x4 { data }
    }

    /// Read one channel value back.
    pub fn get_value(&self, x: usize, y: usize, channel: usize) -> (value: u8)
        requires
            x < 4,
            y < 4,
            channel < self.channel_count(),
        ensures
            value == self.pixel(x as int, y as int, channel as int),
    {
        self.data[(y * 4 + x) * 4 + channel]
    }
}

impl RawColor4x4Block for Rgba4x4 {
    closed spec fn channel_count(&self) -> nat {
        if self.data@.len() == 64 {
            4
        } else {
            0
        }
    }

    closed spec fn pixel(&self, x: int, y: int, ch: int) -> u8 {
        if 0 <= x < 4 && 0 <= y < 4 && 0 <= ch < 4 && self.data@.len() == 64 {
            self.data@[(y * 4 + x) * 4 + ch]
        } else {
            0u8
        }
    }

    fn number_of_channels(&self) -> (n: usize) {
        if self.data.len() == 64 {
            4
        } else {
            0
        }
    }

    fn set_value(&mut self, x: usize, y: usize, channel: usize, value: u8) {
        self.data.set((y * 4 + x) * 4 + channel, value);
    }
}

} // verus!
