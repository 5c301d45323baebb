//! Memory layout of an RGBA8 frame: four bytes per texel, rows from the top,
//! texels from the left, no padding between rows.

use vstd::prelude::*;

verus! {

/// Bytes that one RGBA8 texel occupies: one per channel.
pub const BYTES_PER_TEXEL: usize = 4;

/// Width and height of a frame, in texels.
#[derive(Clone, Copy, Debug, PartialEq, Eq, Structural)]
pub struct Extent {
    pub width: u32,
    pub height: u32,
}

impl Extent {
    /// Number of texels of a frame of this extent.
    pub open spec fn texels(self) -> nat {
        (self.width as nat) * (self.height as nat)
    }

    /// Number of bytes that a tightly packed RGBA8 frame of this extent takes.
    pub open spec fn byte_len(self) -> nat {
        4 * self.texels()
    }

    /// Whether the texel in column `x` of row `y` lies on the frame.
    pub open spec fn contains(self, x: int, y: int) -> bool {
        0 <= x < self.width && 0 <= y < self.height
    }

    /// Index of the first byte of the texel in column `x` of row `y`.
    pub open spec fn offset_of(self, x: int, y: int) -> int {
        4 * (y * (self.width as int) + x)
    }

    /// The byte length as a machine size, or `None` where it exceeds the
    /// address space.
    pub fn byte_size(&self) -> (size: Option<usize>)
        ensures
            match size {
                Some(n) => n == self.byte_len(),
                None => self.byte_len() > usize::MAX,
            },
    {
        let w: usize = self.width as usize;
        let h: usize = self.height as usize;
        match w.checked_mul(h) {
            Some(texels) => {
                assert(texels == self.texels()) by (nonlinear_arith)
                    requires
                        texels == w * h,
                        w == self.width,
                        h == self.height,
                ;
                texels.checked_mul(BYTES_PER_TEXEL)
            },
            None => {
                assert(self.texels() > usize::MAX) by (nonlinear_arith)
                    requires
                        w * h > usize::MAX,
                        w == self.width,
                        h == self.height,
                ;
                None
            },
        }
    }
}

/// Every texel of the frame starts inside the frame's bytes, four bytes
/// before their end at the latest.
pub proof fn lemma_offset_in_bounds(extent: Extent, x: int, y: int)
    requires
        extent.contains(x, y),
    ensures
        0 <= extent.offset_of(x, y),
        extent.offset_of(x, y) + 4 <= extent.byte_len(),
{
    let w = extent.width as int;
    let h = extent.height as int;
    assert(y * w + x + 1 <= h * w) by (nonlinear_arith)
        requires
            0 <= x < w,
            0 <= y < h,
    ;
    assert(0 <= y * w) by (nonlinear_arith)
        requires
            0 <= y,
            0 <= w,
    ;
    assert(h * w == extent.texels()) by (nonlinear_arith)
        requires
            w == extent.width,
            h == extent.height,
            extent.texels() == (extent.width as nat) * (extent.height as nat),
    ;
}

} // verus!
