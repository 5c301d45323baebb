//! Where a vertex lands on the frame.
//!
//! Positions are held in fixed point, so that every step below is exact. A
//! normalized coordinate is a whole number of steps, `NDC_ONE` steps to one
//! unit; a position on the frame is a whole number of subpixels,
//! `SUBPIXELS` to one texel. The left and the top edge of the viewport are
//! at normalized -1, the right and the bottom edge at +1.

use vstd::prelude::*;
use crate::layout::Extent;

verus! {

/// Steps that make one normalized unit.
pub const NDC_ONE: i16 = 128;

/// Subpixels that make one texel: twice `NDC_ONE`, since the viewport spans
/// two normalized units.
pub const SUBPIXELS: i64 = 256;

/// A vertex of the triangle: a position in normalized device coordinates,
/// in steps.
#[derive(Clone, Copy, Debug, PartialEq, Eq, Structural)]
pub struct Vertex {
    pub x: i16,
    pub y: i16,
}

/// A position on the frame, in subpixels from the frame's top left corner.
#[derive(Clone, Copy, Debug, PartialEq, Eq, Structural)]
pub struct DevicePoint {
    pub x: i64,
    pub y: i64,
}

/// The three vertices of a triangle, in the order in which they are drawn.
#[derive(Clone, Copy, Debug, PartialEq, Eq, Structural)]
pub struct Triangle {
    pub a: Vertex,
    pub b: Vertex,
    pub c: Vertex,
}

/// The rectangle of the frame onto which normalized coordinates are mapped:
/// its top left corner and its size, in texels.
#[derive(Clone, Copy, Debug, PartialEq, Eq, Structural)]
pub struct Viewport {
    pub x: u32,
    pub y: u32,
    pub width: u32,
    pub height: u32,
}

impl Vertex {
    /// Whether the vertex lies in the visible square, from -1 to +1 in both
    /// directions.
    pub open spec fn visible(self) -> bool {
        -NDC_ONE <= self.x <= NDC_ONE && -NDC_ONE <= self.y <= NDC_ONE
    }
}

impl DevicePoint {
    /// The top left corner of the texel in column `x` of row `y`.
    pub open spec fn corner_of(x: int, y: int) -> DevicePoint {
        DevicePoint { x: (x * SUBPIXELS) as i64, y: (y * SUBPIXELS) as i64 }
    }

    /// The centre of the texel in column `x` of row `y`.
    pub open spec fn centre_of(x: int, y: int) -> DevicePoint {
        DevicePoint { x: (x * SUBPIXELS + NDC_ONE) as i64, y: (y * SUBPIXELS + NDC_ONE) as i64 }
    }

    /// The centre of the texel in column `x` of row `y`.
    pub fn texel_centre(x: u32, y: u32) -> (p: DevicePoint)
        ensures
            p == DevicePoint::centre_of(x as int, y as int),
            p.x == x * 256 + 128,
            p.y == y * 256 + 128,
    {
        DevicePoint { x: x as i64 * SUBPIXELS + NDC_ONE as i64, y: y as i64 * SUBPIXELS + NDC_ONE as i64 }
    }
}

impl Viewport {
    /// The viewport that covers a frame of the given extent exactly.
    pub open spec fn covering(extent: Extent) -> Viewport {
        Viewport { x: 0, y: 0, width: extent.width, height: extent.height }
    }

    /// The viewport that covers a frame of the given extent exactly.
    pub fn over(extent: Extent) -> (viewport: Viewport)
        ensures
            viewport == Viewport::covering(extent),
    {
        Viewport { x: 0, y: 0, width: extent.width, height: extent.height }
    }

    /// Horizontal position, in subpixels, of normalized `x` (in steps):
    /// the left edge for -1, the right edge for +1, and in proportion
    /// between and beyond them.
    pub open spec fn device_x(self, x: int) -> int {
        self.x * SUBPIXELS + (x + NDC_ONE) * self.width
    }

    /// Vertical position, in subpixels, of normalized `y` (in steps): the
    /// top edge for -1, the bottom edge for +1.
    pub open spec fn device_y(self, y: int) -> int {
        self.y * SUBPIXELS + (y + NDC_ONE) * self.height
    }

    /// Where the vertex lands on the frame.
    pub open spec fn device(self, v: Vertex) -> DevicePoint {
        DevicePoint { x: self.device_x(v.x as int) as i64, y: self.device_y(v.y as int) as i64 }
    }

    /// Where the vertex lands on the frame.
    pub fn to_device(&self, v: Vertex) -> (p: DevicePoint)
        ensures
            p == self.device(v),
            p.x == self.device_x(v.x as int),
            p.y == self.device_y(v.y as int),
    {
        proof {
            lemma_device_bounds(*self, v);
        }
        let dx: i64 = (v.x as i64 + NDC_ONE as i64) * (self.width as i64);
        let dy: i64 = (v.y as i64 + NDC_ONE as i64) * (self.height as i64);
        DevicePoint { x: self.x as i64 * SUBPIXELS + dx, y: self.y as i64 * SUBPIXELS + dy }
    }
}

/// Bound, in subpixels, within which every vertex lands and every texel
/// centre lies.
pub open spec fn device_limit() -> int {
    0x1_0000_0000_0000
}

/// Whether both coordinates of the point are within `device_limit`.
pub open spec fn within_limit(p: DevicePoint) -> bool {
    -device_limit() < p.x < device_limit() && -device_limit() < p.y < device_limit()
}

/// Whatever the viewport and the vertex, the vertex lands within
/// `device_limit` of the frame's corner.
pub proof fn lemma_device_bounds(viewport: Viewport, v: Vertex)
    ensures
        -device_limit() < (v.x + NDC_ONE) * viewport.width < device_limit(),
        -device_limit() < (v.y + NDC_ONE) * viewport.height < device_limit(),
        -device_limit() < viewport.device_x(v.x as int) < device_limit(),
        -device_limit() < viewport.device_y(v.y as int) < device_limit(),
        within_limit(viewport.device(v)),
{
    let sx = v.x + NDC_ONE;
    let sy = v.y + NDC_ONE;
    let w = viewport.width as int;
    let h = viewport.height as int;
    assert(-0x8000 * 0x1_0000_0000 <= sx * w <= 0x8080 * 0x1_0000_0000) by (nonlinear_arith)
        requires
            -0x8000 <= sx <= 0x8080,
            0 <= w <= 0x1_0000_0000,
    ;
    assert(-0x8000 * 0x1_0000_0000 <= sy * h <= 0x8080 * 0x1_0000_0000) by (nonlinear_arith)
        requires
            -0x8000 <= sy <= 0x8080,
            0 <= h <= 0x1_0000_0000,
    ;
}

/// A vertex of the visible square lands inside the viewport or on its edge,
/// the corners of the square on the corners of the viewport.
pub proof fn lemma_visible_lands_in_viewport(viewport: Viewport, v: Vertex)
    requires
        v.visible(),
    ensures
        viewport.x * SUBPIXELS <= viewport.device_x(v.x as int) <= (viewport.x + viewport.width)
            * SUBPIXELS,
        viewport.y * SUBPIXELS <= viewport.device_y(v.y as int) <= (viewport.y + viewport.height)
            * SUBPIXELS,
        viewport.device_x(-(NDC_ONE as int)) == viewport.x * SUBPIXELS,
        viewport.device_x(NDC_ONE as int) == (viewport.x + viewport.width) * SUBPIXELS,
        viewport.device_y(-(NDC_ONE as int)) == viewport.y * SUBPIXELS,
        viewport.device_y(NDC_ONE as int) == (viewport.y + viewport.height) * SUBPIXELS,
{
    let sx = v.x + NDC_ONE;
    let sy = v.y + NDC_ONE;
    let w = viewport.width as int;
    let h = viewport.height as int;
    assert(0 <= sx * w <= 256 * w) by (nonlinear_arith)
        requires
            0 <= sx <= 256,
            0 <= w,
    ;
    assert(0 <= sy * h <= 256 * h) by (nonlinear_arith)
        requires
            0 <= sy <= 256,
            0 <= h,
    ;
}

/// The mapping keeps the order of positions: what is further right, or
/// further down, in normalized coordinates is so on the frame, and by the
/// same share of the viewport's size.
pub proof fn lemma_device_keeps_order(viewport: Viewport, p: Vertex, q: Vertex)
    ensures
        viewport.device_x(q.x as int) - viewport.device_x(p.x as int) == (q.x - p.x)
            * viewport.width,
        viewport.device_y(q.y as int) - viewport.device_y(p.y as int) == (q.y - p.y)
            * viewport.height,
        p.x <= q.x ==> viewport.device_x(p.x as int) <= viewport.device_x(q.x as int),
        p.y <= q.y ==> viewport.device_y(p.y as int) <= viewport.device_y(q.y as int),
{
    let w = viewport.width as int;
    let h = viewport.height as int;
    let px = p.x as int;
    let py = p.y as int;
    let qx = q.x as int;
    let qy = q.y as int;
    assert((qx + 128) * w - (px + 128) * w == (qx - px) * w) by (nonlinear_arith);
    assert((qy + 128) * h - (py + 128) * h == (qy - py) * h) by (nonlinear_arith);
    assert(px <= qx ==> 0 <= (qx - px) * w) by (nonlinear_arith)
        requires
            0 <= w,
    ;
    assert(py <= qy ==> 0 <= (qy - py) * h) by (nonlinear_arith)
        requires
            0 <= h,
    ;
}

} // verus!
