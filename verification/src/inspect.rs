//! Judging a frame that was read back: does it show the triangle on the
//! cleared ground?

use vstd::prelude::*;
use crate::color::Rgba8;
use crate::coverage::Coverage;
use crate::frame::{Frame, FrameView};
use crate::geometry::{Triangle, Viewport};
use crate::plan::{
    lemma_fixed_triangle_leaves_no_texel_open,
    lemma_fixed_triangle_stays_in_its_box,
    FramePlan,
};

verus! {

/// Whether the texel in column `x` of row `y` is as the triangle demands:
/// still the clear colour where the triangle does not reach, another colour
/// where the triangle covers it, and anything on the triangle's edges.
pub open spec fn texel_agrees(
    frame: FrameView,
    viewport: Viewport,
    triangle: Triangle,
    clear: Rgba8,
    x: int,
    y: int,
) -> bool {
    match viewport.coverage_of(triangle, x, y) {
        Coverage::Outside => frame.texel(x, y) == clear,
        Coverage::Inside => frame.texel(x, y) != clear,
        Coverage::Edge => true,
    }
}

/// Whether every texel of the frame is as the triangle demands.
pub open spec fn shows_triangle(
    frame: FrameView,
    viewport: Viewport,
    triangle: Triangle,
    clear: Rgba8,
) -> bool {
    forall|x: int, y: int|
        frame.extent.contains(x, y) ==> #[trigger] texel_agrees(
            frame,
            viewport,
            triangle,
            clear,
            x,
            y,
        )
}

/// Whether one texel is as the triangle demands.
fn check_texel(frame: &Frame, viewport: &Viewport, triangle: &Triangle, clear: Rgba8, x: u32, y: u32)
    -> (ok: bool)
    requires
        frame@.extent.contains(x as int, y as int),
    ensures
        ok == texel_agrees(frame@, *viewport, *triangle, clear, x as int, y as int),
{
    match frame.texel(x, y) {
        Some(texel) => {
            match viewport.coverage(triangle, x, y) {
                Coverage::Outside => texel == clear,
                Coverage::Inside => texel != clear,
                Coverage::Edge => true,
            }
        },
        None => true,
    }
}

/// Whether the frame shows the triangle: the clear colour wherever the
/// triangle does not reach, and another colour wherever it covers a texel.
pub fn check_frame(frame: &Frame, viewport: &Viewport, triangle: &Triangle, clear: Rgba8) -> (ok:
    bool)
    ensures
        ok == shows_triangle(frame@, *viewport, *triangle, clear),
{
    let extent = frame.extent();
    let mut y: u32 = 0;
    while y < extent.height
        invariant
            extent == frame@.extent,
            y <= extent.height,
            forall|i: int, j: int|
                0 <= i < extent.width && 0 <= j < y ==> #[trigger] texel_agrees(
                    frame@,
                    *viewport,
                    *triangle,
                    clear,
                    i,
                    j,
                ),
        decreases extent.height - y,
    {
        let mut x: u32 = 0;
        while x < extent.width
            invariant
                extent == frame@.extent,
                y < extent.height,
                x <= extent.width,
                forall|i: int, j: int|
                    0 <= i < extent.width && 0 <= j < y ==> #[trigger] texel_agrees(
                        frame@,
                        *viewport,
                        *triangle,
                        clear,
                        i,
                        j,
                    ),
                forall|i: int|
                    0 <= i < x ==> #[trigger] texel_agrees(
                        frame@,
                        *viewport,
                        *triangle,
                        clear,
                        i,
                        y as int,
                    ),
            decreases extent.width - x,
        {
            if !check_texel(frame, viewport, triangle, clear, x, y) {
                assert(frame@.extent.contains(x as int, y as int));
                return false;
            }
            x = x + 1;
        }
        y = y + 1;
    }
    true
}

/// What acceptance means on the fixed frame: in a frame of the fixed extent
/// that shows the fixed triangle on opaque blue, the texels that are not
/// opaque blue are exactly those whose centre the triangle covers, and all
/// of them lie in columns and rows 256 to 767.
pub proof fn lemma_accepted_fixed_frame(frame: FrameView)
    requires
        frame.extent == FramePlan::fixed().extent,
        shows_triangle(
            frame,
            FramePlan::fixed().viewport,
            FramePlan::fixed().triangle,
            Rgba8::opaque_blue(),
        ),
    ensures
        forall|x: int, y: int|
            #![trigger frame.texel(x, y)]
            frame.extent.contains(x, y) ==> {
                &&& frame.texel(x, y) != Rgba8::opaque_blue()
                    <==> FramePlan::fixed().viewport.coverage_of(FramePlan::fixed().triangle, x, y)
                    == Coverage::Inside
                &&& frame.texel(x, y) == Rgba8::opaque_blue()
                    <==> FramePlan::fixed().viewport.coverage_of(FramePlan::fixed().triangle, x, y)
                    == Coverage::Outside
                &&& frame.texel(x, y) != Rgba8::opaque_blue() ==> 256 <= x <= 767 && 256 <= y
                    <= 767
            },
{
    let viewport = FramePlan::fixed().viewport;
    let triangle = FramePlan::fixed().triangle;
    let blue = Rgba8::opaque_blue();
    assert forall|x: int, y: int|
        #![trigger frame.texel(x, y)]
        frame.extent.contains(x, y) implies {
        &&& frame.texel(x, y) != blue <==> viewport.coverage_of(triangle, x, y) == Coverage::Inside
        &&& frame.texel(x, y) == blue <==> viewport.coverage_of(triangle, x, y) == Coverage::Outside
        &&& frame.texel(x, y) != blue ==> 256 <= x <= 767 && 256 <= y <= 767
    } by {
        assert(texel_agrees(frame, viewport, triangle, blue, x, y));
        lemma_fixed_triangle_leaves_no_texel_open(x, y);
        if viewport.coverage_of(triangle, x, y) == Coverage::Inside {
            lemma_fixed_triangle_stays_in_its_box(x, y);
        }
    }
}

} // verus!
