//! Colours as they lie in an RGBA8 frame: four bytes, each channel from 0
//! (none) to 255 (full).

use vstd::prelude::*;

verus! {

/// One RGBA8 texel.
#[derive(Clone, Copy, Debug, PartialEq, Eq, Structural)]
pub struct Rgba8 {
    pub r: u8,
    pub g: u8,
    pub b: u8,
    pub a: u8,
}

impl Rgba8 {
    /// Blue at full strength, fully opaque.
    pub open spec fn opaque_blue() -> Rgba8 {
        Rgba8 { r: 0, g: 0, b: 255, a: 255 }
    }

    /// The colour to which the frame is cleared before the triangle is
    /// drawn: opaque blue.
    pub fn clear() -> (c: Rgba8)
        ensures
            c == Rgba8::opaque_blue(),
    {
        Rgba8 { r: 0, g: 0, b: 255, a: 255 }
    }

    /// The four channels in the order in which they lie in memory.
    pub open spec fn channels(self) -> Seq<u8> {
        seq![self.r, self.g, self.b, self.a]
    }

    /// The four channels in the order in which they lie in memory.
    pub fn to_bytes(&self) -> (bytes: [u8; 4])
        ensures
            bytes@ == self.channels(),
    {
        let bytes: [u8; 4] = [self.r, self.g, self.b, self.a];
        assert(bytes@ =~= self.channels());
        bytes
    }
}

} // verus!
