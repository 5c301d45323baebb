use triangle_frame::color::Rgba8;
use triangle_frame::coverage::Coverage;
use triangle_frame::frame::Frame;
use triangle_frame::geometry::{Triangle, Vertex, Viewport};
use triangle_frame::inspect::check_frame;
use triangle_frame::layout::Extent;
use triangle_frame::plan::FramePlan;

const RED: Rgba8 = Rgba8 { r: 255, g: 0, b: 0, a: 255 };

fn painted(plan: &FramePlan, inside: Rgba8) -> Vec<u8> {
    let mut bytes = Vec::with_capacity(plan.output_len);
    for y in 0..plan.extent.height {
        for x in 0..plan.extent.width {
            let colour = match plan.viewport.coverage(&plan.triangle, x, y) {
                Coverage::Inside => inside,
                _ => plan.clear,
            };
            bytes.extend_from_slice(&colour.to_bytes());
        }
    }
    bytes
}

fn small_plan() -> FramePlan {
    let fixed = FramePlan::triangle_frame();
    FramePlan::new(Extent { width: 64, height: 64 }, fixed.triangle, fixed.clear).unwrap()
}

fn offset(plan: &FramePlan, x: u32, y: u32) -> usize {
    4 * (y as usize * plan.extent.width as usize + x as usize)
}

#[test]
fn painted_triangle_on_cleared_ground_is_accepted() {
    let plan = FramePlan::triangle_frame();
    let frame = plan.read_back(painted(&plan, RED)).unwrap();
    assert!(check_frame(&frame, &plan.viewport, &plan.triangle, plan.clear));
}

#[test]
fn small_painted_frame_is_accepted() {
    let plan = small_plan();
    let frame = plan.read_back(painted(&plan, RED)).unwrap();
    assert!(check_frame(&frame, &plan.viewport, &plan.triangle, plan.clear));
}

#[test]
fn frame_that_was_only_cleared_is_refused() {
    let plan = small_plan();
    let frame = plan.read_back(painted(&plan, plan.clear)).unwrap();
    assert!(!check_frame(&frame, &plan.viewport, &plan.triangle, plan.clear));
}

#[test]
fn stray_texel_outside_the_triangle_is_refused() {
    let plan = small_plan();
    assert_eq!(plan.viewport.coverage(&plan.triangle, 0, 0), Coverage::Outside);
    let mut bytes = painted(&plan, RED);
    let at = offset(&plan, 0, 0);
    bytes[at] = 1;
    let frame = plan.read_back(bytes).unwrap();
    assert!(!check_frame(&frame, &plan.viewport, &plan.triangle, plan.clear));

    assert_eq!(plan.viewport.coverage(&plan.triangle, 63, 63), Coverage::Outside);
    let mut bytes = painted(&plan, RED);
    let at = offset(&plan, 63, 63);
    bytes[at + 3] = 254;
    let frame = plan.read_back(bytes).unwrap();
    assert!(!check_frame(&frame, &plan.viewport, &plan.triangle, plan.clear));
}

#[test]
fn hole_inside_the_triangle_is_refused() {
    let plan = small_plan();
    assert_eq!(plan.viewport.coverage(&plan.triangle, 32, 29), Coverage::Inside);
    let mut bytes = painted(&plan, RED);
    let at = offset(&plan, 32, 29);
    bytes[at..at + 4].copy_from_slice(&plan.clear.to_bytes());
    let frame = plan.read_back(bytes).unwrap();
    assert!(!check_frame(&frame, &plan.viewport, &plan.triangle, plan.clear));
}

#[test]
fn any_colour_but_the_clear_colour_counts_as_drawn() {
    let plan = small_plan();
    let nearly_clear = Rgba8 { r: 0, g: 0, b: 255, a: 254 };
    let frame = plan.read_back(painted(&plan, nearly_clear)).unwrap();
    assert!(check_frame(&frame, &plan.viewport, &plan.triangle, plan.clear));
}

#[test]
fn texels_on_an_edge_may_have_any_colour() {
    // Corners in whole texels: (0, 0), (4, 0), (0, 4) on a frame of 4 by 4.
    // The centres of (0,3), (1,2), (2,1), (3,0) lie on the slanted edge.
    let triangle = Triangle {
        a: Vertex { x: -128, y: -128 },
        b: Vertex { x: 128, y: -128 },
        c: Vertex { x: -128, y: 128 },
    };
    let viewport = Viewport::over(Extent { width: 4, height: 4 });
    let clear = Rgba8::clear();
    assert_eq!(viewport.coverage(&triangle, 1, 2), Coverage::Edge);
    assert_eq!(viewport.coverage(&triangle, 3, 0), Coverage::Edge);
    assert_eq!(viewport.coverage(&triangle, 1, 1), Coverage::Inside);
    assert_eq!(viewport.coverage(&triangle, 2, 2), Coverage::Outside);
    for edge_colour in [clear, RED] {
        let mut bytes = Vec::new();
        for y in 0..4u32 {
            for x in 0..4u32 {
                let colour = match viewport.coverage(&triangle, x, y) {
                    Coverage::Inside => RED,
                    Coverage::Edge => edge_colour,
                    Coverage::Outside => clear,
                };
                bytes.extend_from_slice(&colour.to_bytes());
            }
        }
        let frame = Frame::from_raw(4, 4, bytes).unwrap();
        assert!(check_frame(&frame, &viewport, &triangle, clear));
    }
}

#[test]
fn empty_frame_is_accepted() {
    let plan = FramePlan::triangle_frame();
    let frame = Frame::from_raw(0, 0, Vec::new()).unwrap();
    assert!(check_frame(&frame, &plan.viewport, &plan.triangle, plan.clear));
}
