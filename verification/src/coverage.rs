//! Which texels a triangle covers.
//!
//! A texel is judged by its centre. The centre is inside the triangle, or
//! outside it, or exactly on one of its edges; in the last case the device's
//! rule for shared edges decides whether the texel is drawn, and nothing is
//! said of it here. A triangle without area covers nothing.

use vstd::prelude::*;
use crate::geometry::{
    lemma_device_bounds,
    within_limit,
    DevicePoint,
    Triangle,
    Viewport,
};

verus! {

/// How a texel's centre lies to a triangle.
#[derive(Clone, Copy, Debug, PartialEq, Eq, Structural)]
pub enum Coverage {
    /// Strictly inside: the texel is drawn.
    Inside,
    /// Exactly on an edge or a corner: left to the device.
    Edge,
    /// Strictly outside: the texel is not drawn.
    Outside,
}

/// Twice the signed area of the triangle `a`, `b`, `p`: positive where `p`
/// lies on one side of the line from `a` to `b`, negative on the other, zero
/// on the line.
pub open spec fn edge(a: DevicePoint, b: DevicePoint, p: DevicePoint) -> int {
    (b.x - a.x) * (p.y - a.y) - (b.y - a.y) * (p.x - a.x)
}

/// How `p` lies to the triangle `a`, `b`, `c`, whichever way round its
/// corners are given.
pub open spec fn classify(a: DevicePoint, b: DevicePoint, c: DevicePoint, p: DevicePoint)
    -> Coverage {
    let area = edge(a, b, c);
    let ab = edge(a, b, p);
    let bc = edge(b, c, p);
    let ca = edge(c, a, p);
    if area > 0 {
        if ab > 0 && bc > 0 && ca > 0 {
            Coverage::Inside
        } else if ab >= 0 && bc >= 0 && ca >= 0 {
            Coverage::Edge
        } else {
            Coverage::Outside
        }
    } else if area < 0 {
        if ab < 0 && bc < 0 && ca < 0 {
            Coverage::Inside
        } else if ab <= 0 && bc <= 0 && ca <= 0 {
            Coverage::Edge
        } else {
            Coverage::Outside
        }
    } else {
        Coverage::Outside
    }
}

impl Viewport {
    /// How the centre of the texel in column `x` of row `y` lies to the
    /// triangle, once its vertices have landed on the frame.
    pub open spec fn coverage_of(self, triangle: Triangle, x: int, y: int) -> Coverage {
        classify(
            self.device(triangle.a),
            self.device(triangle.b),
            self.device(triangle.c),
            DevicePoint::centre_of(x, y),
        )
    }

    /// How the centre of the texel in column `x` of row `y` lies to the
    /// triangle.
    pub fn coverage(&self, triangle: &Triangle, x: u32, y: u32) -> (coverage: Coverage)
        ensures
            coverage == self.coverage_of(*triangle, x as int, y as int),
    {
        proof {
            lemma_device_bounds(*self, triangle.a);
            lemma_device_bounds(*self, triangle.b);
            lemma_device_bounds(*self, triangle.c);
        }
        let a = self.to_device(triangle.a);
        let b = self.to_device(triangle.b);
        let c = self.to_device(triangle.c);
        let p = DevicePoint::texel_centre(x, y);
        classify_point(a, b, c, p)
    }
}

/// Computes `edge` without overflow for points within the limit.
fn edge_value(a: DevicePoint, b: DevicePoint, p: DevicePoint) -> (e: i128)
    requires
        within_limit(a),
        within_limit(b),
        within_limit(p),
    ensures
        e == edge(a, b, p),
{
    let abx: i128 = b.x as i128 - a.x as i128;
    let aby: i128 = b.y as i128 - a.y as i128;
    let apx: i128 = p.x as i128 - a.x as i128;
    let apy: i128 = p.y as i128 - a.y as i128;
    assert(-0x4_0000_0000_0000_0000_0000_0000 <= abx * apy <= 0x4_0000_0000_0000_0000_0000_0000)
        by (nonlinear_arith)
        requires
            -0x2_0000_0000_0000 <= abx <= 0x2_0000_0000_0000,
            -0x2_0000_0000_0000 <= apy <= 0x2_0000_0000_0000,
    ;
    assert(-0x4_0000_0000_0000_0000_0000_0000 <= aby * apx <= 0x4_0000_0000_0000_0000_0000_0000)
        by (nonlinear_arith)
        requires
            -0x2_0000_0000_0000 <= aby <= 0x2_0000_0000_0000,
            -0x2_0000_0000_0000 <= apx <= 0x2_0000_0000_0000,
    ;
    abx * apy - aby * apx
}

/// How `p` lies to the triangle `a`, `b`, `c`.
pub fn classify_point(a: DevicePoint, b: DevicePoint, c: DevicePoint, p: DevicePoint) -> (coverage:
    Coverage)
    requires
        within_limit(a),
        within_limit(b),
        within_limit(c),
        within_limit(p),
    ensures
        coverage == classify(a, b, c, p),
{
    let area = edge_value(a, b, c);
    let ab = edge_value(a, b, p);
    let bc = edge_value(b, c, p);
    let ca = edge_value(c, a, p);
    if area > 0 {
        if ab > 0 && bc > 0 && ca > 0 {
            Coverage::Inside
        } else if ab >= 0 && bc >= 0 && ca >= 0 {
            Coverage::Edge
        } else {
            Coverage::Outside
        }
    } else if area < 0 {
        if ab < 0 && bc < 0 && ca < 0 {
            Coverage::Inside
        } else if ab <= 0 && bc <= 0 && ca <= 0 {
            Coverage::Edge
        } else {
            Coverage::Outside
        }
    } else {
        Coverage::Outside
    }
}

/// The edge value written out as a sum of products of one horizontal and
/// one vertical coordinate each.
proof fn lemma_edge_expanded(a: DevicePoint, b: DevicePoint, p: DevicePoint)
    ensures
        edge(a, b, p) == (b.x * p.y) - (b.x * a.y) - (a.x * p.y) - (p.x * b.y) + (a.x * b.y) + (p.x
            * a.y),
{
    let (ax, ay) = (a.x as int, a.y as int);
    let (bx, by) = (b.x as int, b.y as int);
    let (px, py) = (p.x as int, p.y as int);
    assert((bx - ax) * (py - ay) == bx * py - bx * ay - ax * py + ax * ay) by (nonlinear_arith);
    assert((by - ay) * (px - ax) == px * by - ax * by - px * ay + ax * ay) by (nonlinear_arith);
}

/// Walking an edge the other way flips the sign of its edge value.
pub proof fn lemma_edge_reversed(a: DevicePoint, b: DevicePoint, p: DevicePoint)
    ensures
        edge(b, a, p) == -edge(a, b, p),
{
    lemma_edge_expanded(a, b, p);
    lemma_edge_expanded(b, a, p);
}

/// Turning the triangle round changes nothing: what is covered does not
/// depend on which corner is named first, nor on the direction in which the
/// corners are named.
pub proof fn lemma_corner_order_is_free(
    a: DevicePoint,
    b: DevicePoint,
    c: DevicePoint,
    p: DevicePoint,
)
    ensures
        classify(b, c, a, p) == classify(a, b, c, p),
        classify(c, a, b, p) == classify(a, b, c, p),
        classify(a, c, b, p) == classify(a, b, c, p),
{
    lemma_edge_expanded(a, b, c);
    lemma_edge_expanded(b, c, a);
    lemma_edge_expanded(c, a, b);
    lemma_edge_expanded(a, c, b);
    lemma_edge_reversed(a, c, p);
    lemma_edge_reversed(c, b, p);
    lemma_edge_reversed(b, a, p);
}

} // verus!
