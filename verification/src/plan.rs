//! Everything that is fixed before the device is asked for anything: the
//! extent of the frame, the size of the buffer it is copied to, the
//! viewport, the triangle and the clear colour.

use vstd::prelude::*;
use crate::color::Rgba8;
use crate::commands::{frame_commands, record_frame, Command};
use crate::coverage::{edge, Coverage};
use crate::frame::{be_bytes, png_header, Frame, FrameView};
use crate::geometry::{DevicePoint, Triangle, Vertex, Viewport};
use crate::layout::Extent;

verus! {

/// Width and height of the frame that the program draws, in texels.
pub const FRAME_SIDE: u32 = 1024;

/// Number of vertices that are drawn: one triangle.
pub const VERTEX_COUNT: u32 = 3;

/// The plan of one frame.
#[derive(Clone, Copy, Debug)]
pub struct FramePlan {
    /// Extent of the image that is drawn to and of the frame read back.
    pub extent: Extent,
    /// Size, in bytes, of the buffer that the image is copied to.
    pub output_len: usize,
    /// The viewport: it covers the image exactly.
    pub viewport: Viewport,
    /// The triangle that is drawn.
    pub triangle: Triangle,
    /// The colour of everything that the triangle does not cover.
    pub clear: Rgba8,
}

impl FramePlan {
    /// The parts of a plan fit together: the output buffer holds the image
    /// exactly, and the viewport covers the image exactly.
    pub open spec fn wf(self) -> bool {
        &&& self.output_len == self.extent.byte_len()
        &&& self.viewport == Viewport::covering(self.extent)
    }

    /// The triangle with corners at (-1/2, -1/2), (0, 1/2) and (1/2, -1/4)
    /// of the normalized square.
    pub open spec fn fixed_triangle() -> Triangle {
        Triangle {
            a: Vertex { x: (-64) as i16, y: (-64) as i16 },
            b: Vertex { x: 0, y: 64 },
            c: Vertex { x: 64, y: (-32) as i16 },
        }
    }

    /// The plan of the frame that the program draws: 1024 by 1024 texels,
    /// cleared to opaque blue, with the fixed triangle on it.
    pub open spec fn fixed() -> FramePlan {
        FramePlan {
            extent: Extent { width: 1024, height: 1024 },
            output_len: 4194304,
            viewport: Viewport { x: 0, y: 0, width: 1024, height: 1024 },
            triangle: FramePlan::fixed_triangle(),
            clear: Rgba8::opaque_blue(),
        }
    }

    /// Plans a frame of the given extent.
    ///
    /// Returns `None` exactly where the frame's bytes exceed the address
    /// space: then there is no plan, and so nothing to allocate or record.
    pub fn new(extent: Extent, triangle: Triangle, clear: Rgba8) -> (plan: Option<FramePlan>)
        ensures
            plan is Some <==> extent.byte_len() <= usize::MAX,
            plan matches Some(p) ==> {
                &&& p.wf()
                &&& p.extent == extent
                &&& p.triangle == triangle
                &&& p.clear == clear
            },
    {
        match extent.byte_size() {
            Some(output_len) => Some(
                FramePlan { extent, output_len, viewport: Viewport::over(extent), triangle, clear },
            ),
            None => None,
        }
    }

    /// The plan of the frame that the program draws.
    pub fn triangle_frame() -> (plan: FramePlan)
        ensures
            plan == FramePlan::fixed(),
            plan.wf(),
    {
        let extent = Extent { width: FRAME_SIDE, height: FRAME_SIDE };
        assert(extent.byte_len() == 4194304) by {
            assert(1024nat * 1024nat == 1048576nat) by (nonlinear_arith);
        }
        FramePlan {
            extent,
            output_len: 4194304,
            viewport: Viewport::over(extent),
            triangle: Triangle {
                a: Vertex { x: -64, y: -64 },
                b: Vertex { x: 0, y: 64 },
                c: Vertex { x: 64, y: -32 },
            },
            clear: Rgba8::clear(),
        }
    }

    /// The three vertices in the order in which they are drawn.
    pub fn vertices(&self) -> (vertices: [Vertex; 3])
        ensures
            vertices@ == seq![self.triangle.a, self.triangle.b, self.triangle.c],
    {
        let vertices: [Vertex; 3] = [self.triangle.a, self.triangle.b, self.triangle.c];
        assert(vertices@ =~= seq![self.triangle.a, self.triangle.b, self.triangle.c]);
        vertices
    }

    /// The commands that draw the frame, in recording order.
    pub fn commands(&self) -> (commands: Vec<Command>)
        ensures
            commands@ == frame_commands(self.clear, VERTEX_COUNT),
    {
        record_frame(self.clear, VERTEX_COUNT)
    }

    /// What the output buffer holds before the image is copied into it:
    /// `output_len` zero bytes.
    pub fn blank_output(&self) -> (bytes: Vec<u8>)
        ensures
            bytes@ == Seq::new(self.output_len as nat, |i: int| 0u8),
    {
        let bytes: Vec<u8> = vec![0u8; self.output_len];
        assert(bytes@ =~= Seq::new(self.output_len as nat, |i: int| 0u8));
        bytes
    }

    /// Takes the bytes read back from the output buffer as the frame.
    ///
    /// Returns `None` exactly where there are fewer bytes than the frame
    /// has.
    pub fn read_back(&self, bytes: Vec<u8>) -> (frame: Option<Frame>)
        ensures
            frame is Some <==> self.extent.byte_len() <= bytes@.len(),
            frame matches Some(f) ==> {
                &&& f@.extent == self.extent
                &&& f@.texels == bytes@.take(self.extent.byte_len() as int)
                &&& f@.wf()
            },
    {
        Frame::from_raw(self.extent.width, self.extent.height, bytes)
    }
}

/// On the fixed frame the corners of the fixed triangle land on texel
/// corners: 256 texels right and 256 down, 512 right and 768 down, and 768
/// right and 384 down from the frame's top left corner.
pub proof fn lemma_fixed_triangle_lands()
    ensures
        FramePlan::fixed().viewport.device(FramePlan::fixed().triangle.a) == DevicePoint::corner_of(
            256,
            256,
        ),
        FramePlan::fixed().viewport.device(FramePlan::fixed().triangle.b) == DevicePoint::corner_of(
            512,
            768,
        ),
        FramePlan::fixed().viewport.device(FramePlan::fixed().triangle.c) == DevicePoint::corner_of(
            768,
            384,
        ),
{
}

/// A frame read back for the fixed plan is 1024 texels wide and 1024 high
/// and has four bytes for each of them, 4194304 in all.
pub proof fn lemma_fixed_frame_size(frame: FrameView)
    requires
        frame.wf(),
        frame.extent == FramePlan::fixed().extent,
    ensures
        frame.extent.width == 1024,
        frame.extent.height == 1024,
        frame.texels.len() == 4194304,
        frame.texels.len() == FramePlan::fixed().output_len,
{
    assert(1024nat * 1024nat == 1048576nat) by (nonlinear_arith);
}

/// On the fixed frame no texel's centre lies exactly on an edge of the
/// fixed triangle: every texel is either covered or not reached, and none
/// is left to the device's rule for shared edges.
pub proof fn lemma_fixed_triangle_leaves_no_texel_open(x: int, y: int)
    requires
        FramePlan::fixed().extent.contains(x, y),
    ensures
        FramePlan::fixed().viewport.coverage_of(FramePlan::fixed().triangle, x, y)
            != Coverage::Edge,
{
    lemma_fixed_triangle_lands();
    let a = DevicePoint::corner_of(256, 256);
    let b = DevicePoint::corner_of(512, 768);
    let c = DevicePoint::corner_of(768, 384);
    let p = DevicePoint::centre_of(x, y);
    assert(p.x == 256 * x + 128 && p.y == 256 * y + 128);
    assert(edge(a, b, p) == 65536 * (256 * y - 512 * x + 65408));
    assert(edge(b, c, p) == 32768 * (512 * y + 768 * x - 785792));
    assert(edge(c, a, p) == 32768 * (256 * x - 1024 * y + 196224));
    assert(edge(a, b, p) != 0);
    assert(edge(b, c, p) != 0);
    assert(edge(c, a, p) != 0);
}

/// On the fixed frame every texel that the fixed triangle covers lies in
/// the square of columns and rows 256 to 767.
pub proof fn lemma_fixed_triangle_stays_in_its_box(x: int, y: int)
    requires
        FramePlan::fixed().extent.contains(x, y),
        FramePlan::fixed().viewport.coverage_of(FramePlan::fixed().triangle, x, y)
            == Coverage::Inside,
    ensures
        256 <= x <= 767,
        256 <= y <= 767,
{
    lemma_fixed_triangle_lands();
    let a = DevicePoint::corner_of(256, 256);
    let b = DevicePoint::corner_of(512, 768);
    let c = DevicePoint::corner_of(768, 384);
    let p = DevicePoint::centre_of(x, y);
    assert(p.x == 256 * x + 128 && p.y == 256 * y + 128);
    assert(edge(a, b, c) < 0);
    assert(edge(a, b, p) == 65536 * (256 * y - 512 * x + 65408));
    assert(edge(b, c, p) == 32768 * (512 * y + 768 * x - 785792));
    assert(edge(c, a, p) == 32768 * (256 * x - 1024 * y + 196224));
}

/// The file of a frame of the fixed extent begins with the PNG signature
/// and a header chunk that says 1024 by 1024, eight bits a channel, RGBA.
pub proof fn lemma_fixed_file_header()
    ensures
        png_header(FramePlan::fixed().extent.width, FramePlan::fixed().extent.height) == seq![
            137u8, 80, 78, 71, 13, 10, 26, 10,
            0, 0, 0, 13, 73, 72, 68, 82,
            0, 0, 4, 0,
            0, 0, 4, 0,
            8, 6,
        ],
{
    assert(be_bytes(1024) =~= seq![0u8, 0, 4, 0]);
    assert(png_header(1024, 1024) =~= seq![
        137u8, 80, 78, 71, 13, 10, 26, 10,
        0, 0, 0, 13, 73, 72, 68, 82,
        0, 0, 4, 0,
        0, 0, 4, 0,
        8, 6,
    ]);
}

} // verus!
