use triangle_frame::coverage::{classify_point, Coverage};
use triangle_frame::geometry::{DevicePoint, Triangle, Vertex, Viewport, NDC_ONE, SUBPIXELS};
use triangle_frame::layout::Extent;
use triangle_frame::plan::FramePlan;

fn full_viewport() -> Viewport {
    Viewport::over(Extent { width: 1024, height: 1024 })
}

#[test]
fn units_of_the_fixed_point() {
    assert_eq!(NDC_ONE, 128);
    assert_eq!(SUBPIXELS, 256);
    assert_eq!(SUBPIXELS, 2 * NDC_ONE as i64);
}

#[test]
fn viewport_over_an_extent_starts_at_the_corner() {
    let v = Viewport::over(Extent { width: 640, height: 480 });
    assert_eq!(v, Viewport { x: 0, y: 0, width: 640, height: 480 });
}

#[test]
fn triangle_vertices_land_on_their_texel_corners() {
    let plan = FramePlan::triangle_frame();
    let vp = plan.viewport;
    assert_eq!(vp.to_device(plan.triangle.a), DevicePoint { x: 256 * 256, y: 256 * 256 });
    assert_eq!(vp.to_device(plan.triangle.b), DevicePoint { x: 512 * 256, y: 768 * 256 });
    assert_eq!(vp.to_device(plan.triangle.c), DevicePoint { x: 768 * 256, y: 384 * 256 });
}

#[test]
fn corners_of_the_square_land_on_corners_of_the_viewport() {
    let vp = full_viewport();
    assert_eq!(vp.to_device(Vertex { x: -128, y: -128 }), DevicePoint { x: 0, y: 0 });
    assert_eq!(
        vp.to_device(Vertex { x: 128, y: 128 }),
        DevicePoint { x: 1024 * 256, y: 1024 * 256 }
    );
    assert_eq!(vp.to_device(Vertex { x: 0, y: 0 }), DevicePoint { x: 512 * 256, y: 512 * 256 });
}

#[test]
fn viewport_offset_shifts_every_position() {
    let vp = Viewport { x: 10, y: 20, width: 100, height: 50 };
    assert_eq!(vp.to_device(Vertex { x: -128, y: -128 }), DevicePoint { x: 2560, y: 5120 });
    assert_eq!(
        vp.to_device(Vertex { x: 128, y: 128 }),
        DevicePoint { x: 110 * 256, y: 70 * 256 }
    );
    assert_eq!(vp.to_device(Vertex { x: 64, y: -64 }), DevicePoint { x: 2560 + 192 * 100, y: 5120 + 64 * 50 });
}

#[test]
fn extreme_vertices_and_viewports_do_not_overflow() {
    let vp = Viewport { x: u32::MAX, y: u32::MAX, width: u32::MAX, height: u32::MAX };
    let far = vp.to_device(Vertex { x: i16::MAX, y: i16::MIN });
    let side = u32::MAX as i64;
    assert_eq!(far.x, side * 256 + (i16::MAX as i64 + 128) * side);
    assert_eq!(far.y, side * 256 + (i16::MIN as i64 + 128) * side);
    // The half of the square towards its top left corner holds the texel
    // at the viewport's corner; the other half does not.
    let near = Triangle {
        a: Vertex { x: i16::MIN, y: i16::MIN },
        b: Vertex { x: i16::MAX, y: i16::MIN },
        c: Vertex { x: i16::MIN, y: i16::MAX },
    };
    assert_eq!(vp.coverage(&near, u32::MAX, u32::MAX), Coverage::Inside);
    let away = Triangle {
        a: Vertex { x: i16::MAX, y: i16::MAX },
        b: Vertex { x: i16::MIN, y: i16::MAX },
        c: Vertex { x: i16::MAX, y: i16::MIN },
    };
    assert_eq!(vp.coverage(&away, u32::MAX, u32::MAX), Coverage::Outside);
}

#[test]
fn texel_centres_are_half_a_texel_in() {
    assert_eq!(DevicePoint::texel_centre(0, 0), DevicePoint { x: 128, y: 128 });
    assert_eq!(DevicePoint::texel_centre(3, 7), DevicePoint { x: 3 * 256 + 128, y: 7 * 256 + 128 });
    assert_eq!(
        DevicePoint::texel_centre(u32::MAX, 0),
        DevicePoint { x: u32::MAX as i64 * 256 + 128, y: 128 }
    );
}

#[test]
fn known_texels_inside_the_triangle() {
    let plan = FramePlan::triangle_frame();
    let vp = plan.viewport;
    let t = plan.triangle;
    assert_eq!(vp.coverage(&t, 512, 469), Coverage::Inside);
    assert_eq!(vp.coverage(&t, 400, 500), Coverage::Inside);
    assert_eq!(vp.coverage(&t, 512, 700), Coverage::Inside);
    assert_eq!(vp.coverage(&t, 700, 400), Coverage::Inside);
    assert_eq!(vp.coverage(&t, 257, 257), Coverage::Inside);
    assert_eq!(vp.coverage(&t, 256, 256), Coverage::Inside);
}

#[test]
fn known_texels_outside_the_triangle() {
    let plan = FramePlan::triangle_frame();
    let vp = plan.viewport;
    let t = plan.triangle;
    assert_eq!(vp.coverage(&t, 0, 0), Coverage::Outside);
    assert_eq!(vp.coverage(&t, 1023, 1023), Coverage::Outside);
    assert_eq!(vp.coverage(&t, 1023, 0), Coverage::Outside);
    assert_eq!(vp.coverage(&t, 0, 1023), Coverage::Outside);
    assert_eq!(vp.coverage(&t, 300, 500), Coverage::Outside);
    assert_eq!(vp.coverage(&t, 512, 200), Coverage::Outside);
    assert_eq!(vp.coverage(&t, 512, 800), Coverage::Outside);
    assert_eq!(vp.coverage(&t, 700, 600), Coverage::Outside);
    assert_eq!(vp.coverage(&t, 255, 255), Coverage::Outside);
    assert_eq!(vp.coverage(&t, 256, 255), Coverage::Outside);
    assert_eq!(vp.coverage(&t, 255, 256), Coverage::Outside);
}

#[test]
fn no_texel_of_the_fixed_frame_is_left_open() {
    let plan = FramePlan::triangle_frame();
    let mut inside: u64 = 0;
    for y in 0..1024u32 {
        for x in 0..1024u32 {
            let c = plan.viewport.coverage(&plan.triangle, x, y);
            assert_ne!(c, Coverage::Edge);
            if c == Coverage::Inside {
                assert!((256..=767).contains(&x) && (256..=767).contains(&y));
                inside += 1;
            }
        }
    }
    // The triangle's area is 114688 texels.
    assert!(inside > 113_000 && inside < 116_000, "{}", inside);
}

#[test]
fn points_on_edges_and_corners_are_edge() {
    let a = DevicePoint { x: 0, y: 0 };
    let b = DevicePoint { x: 8, y: 0 };
    let c = DevicePoint { x: 0, y: 8 };
    assert_eq!(classify_point(a, b, c, DevicePoint { x: 4, y: 0 }), Coverage::Edge);
    assert_eq!(classify_point(a, b, c, DevicePoint { x: 0, y: 4 }), Coverage::Edge);
    assert_eq!(classify_point(a, b, c, DevicePoint { x: 4, y: 4 }), Coverage::Edge);
    assert_eq!(classify_point(a, b, c, a), Coverage::Edge);
    assert_eq!(classify_point(a, b, c, b), Coverage::Edge);
    assert_eq!(classify_point(a, b, c, c), Coverage::Edge);
    assert_eq!(classify_point(a, b, c, DevicePoint { x: 2, y: 2 }), Coverage::Inside);
    assert_eq!(classify_point(a, b, c, DevicePoint { x: 5, y: 5 }), Coverage::Outside);
    assert_eq!(classify_point(a, b, c, DevicePoint { x: 9, y: 0 }), Coverage::Outside);
    assert_eq!(classify_point(a, b, c, DevicePoint { x: -1, y: 0 }), Coverage::Outside);
}

#[test]
fn order_of_the_corners_does_not_matter() {
    let a = DevicePoint { x: 10, y: 10 };
    let b = DevicePoint { x: 90, y: 30 };
    let c = DevicePoint { x: 40, y: 80 };
    for y in 0..100i64 {
        for x in 0..100i64 {
            let p = DevicePoint { x, y };
            let expected = classify_point(a, b, c, p);
            assert_eq!(classify_point(b, c, a, p), expected);
            assert_eq!(classify_point(c, a, b, p), expected);
            assert_eq!(classify_point(a, c, b, p), expected);
            assert_eq!(classify_point(c, b, a, p), expected);
            assert_eq!(classify_point(b, a, c, p), expected);
        }
    }
}

#[test]
fn triangle_without_area_covers_nothing() {
    let a = DevicePoint { x: 0, y: 0 };
    let b = DevicePoint { x: 4, y: 4 };
    let c = DevicePoint { x: 8, y: 8 };
    assert_eq!(classify_point(a, b, c, DevicePoint { x: 2, y: 2 }), Coverage::Outside);
    assert_eq!(classify_point(a, b, c, a), Coverage::Outside);
    assert_eq!(classify_point(a, a, a, a), Coverage::Outside);
    assert_eq!(classify_point(a, a, a, b), Coverage::Outside);
}
