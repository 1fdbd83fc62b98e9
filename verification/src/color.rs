//! Colors given as `0xRRGGBB` words, with verified channel extraction.

use vstd::prelude::*;

verus! {

/// A color packed as `0xRRGGBB`.
#[derive(Clone, Copy, Debug, PartialEq, Eq, Structural)]
pub struct ColorHex(pub u32);

impl ColorHex {
    pub fn new(c: u32) -> (r: ColorHex)
        ensures
            r.0 == c,
    {
        ColorHex(c)
    }

    /// The red channel: bits 16 to 23.
    pub fn red(&self) -> (r: u8)
        ensures
            r == (self.0 >> 16) & 0xFF,
    {
        let c: u32 = self.0;
        proof {
            assert((c >> 16) & 0xFF <= 0xFF) by (bit_vector);
        }
        ((c >> 16) & 0xFF) as u8
    }

    /// The green channel: bits 8 to 15.
    pub fn green(&self) -> (r: u8)
        ensures
            r == (self.0 >> 8) & 0xFF,
    {
        let c: u32 = self.0;
        proof {
            assert((c >> 8) & 0xFF <= 0xFF) by (bit_vector);
        }
        ((c >> 8) & 0xFF) as u8
    }

    /// The blue channel: bits 0 to 7.
    pub fn blue(&self) -> (r: u8)
        ensures
            r == self.0 & 0xFF,
    {
        let c: u32 = self.0;
        proof {
            assert(c & 0xFF <= 0xFF) by (bit_vector);
        }
        (c & 0xFF) as u8
    }
}

} // verus!
