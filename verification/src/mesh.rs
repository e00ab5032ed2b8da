//! The geometry of one slice: the triangles that fill it and the closed
//! line around it.

use vstd::prelude::*;
use crate::fixed::floor_div;
use crate::fixed::angle_limit;
use crate::style::Color;
use crate::style::Stroke;

verus! {

/// A point given by its angle, in millionths of a turn counter-clockwise
/// from the positive x axis, and its distance from the chart's centre, in
/// millionths of a device unit.
#[derive(Clone, Copy, Debug, PartialEq, Eq, Structural)]
pub struct PolarPoint {
    pub angle: i128,
    pub radius: i128,
}

/// A corner of a triangle of the mesh.
#[derive(Clone, Copy, Debug, PartialEq, Eq, Structural)]
pub struct Vertex {
    pub at: PolarPoint,
    pub color: Color,
}

/// Triangles of solid colour: every three indices name the corners of one.
#[derive(Debug)]
pub struct Mesh {
    pub vertices: Vec<Vertex>,
    pub indices: Vec<u32>,
}

/// A closed line around one slice.
#[derive(Debug)]
pub struct Outline {
    pub points: Vec<PolarPoint>,
    pub stroke: Stroke,
}

/// What an [`Outline`] holds.
pub struct OutlineView {
    pub points: Seq<PolarPoint>,
    pub stroke: Stroke,
}

impl View for Outline {
    type V = OutlineView;

    open spec fn view(&self) -> OutlineView {
        OutlineView { points: self.points@, stroke: self.stroke }
    }
}

/// Angle of sample `k` of `taps` samples spread evenly over a span that
/// begins at `start`, the first on its start and the last on its end.
pub open spec fn spec_tap_angle(start: int, span: int, k: int, taps: int) -> int {
    start + span * k / (taps - 1)
}

/// Sample `k` of an arc at the given distance from the centre.
pub open spec fn spec_arc_point(start: int, span: int, k: int, taps: int, radius: int) -> PolarPoint {
    PolarPoint { angle: spec_tap_angle(start, span, k, taps) as i128, radius: radius as i128 }
}

/// Vertices of a slice: for each sample one on the inner arc, then one on
/// the outer arc.
pub open spec fn spec_slice_vertices(start: int, span: int, taps: int, inner: int, outer: int, fill: Color) -> Seq<Vertex> {
    Seq::new(
        (2 * taps) as nat,
        |j: int| Vertex {
            at: spec_arc_point(start, span, j / 2, taps, if j % 2 == 0 { inner } else { outer }),
            color: fill,
        },
    )
}

/// Corners of the two triangles that fill the quadrilateral between one
/// sample and the next, counted from the first vertex of the earlier one.
pub open spec fn spec_quad_corner(m: int) -> int {
    if m == 0 {
        0
    } else if m == 1 || m == 3 {
        1
    } else if m == 2 || m == 4 {
        2
    } else {
        3
    }
}

/// Indices of a slice whose vertices begin at `first`: two triangles
/// between each sample and the next, none beyond the last sample.
pub open spec fn spec_slice_indices(first: int, taps: int) -> Seq<u32> {
    Seq::new(
        (6 * (taps - 1)) as nat,
        |j: int| (first + 2 * (j / 6) + spec_quad_corner(j % 6)) as u32,
    )
}

/// The line around a slice: along the inner arc from its end back to its
/// start, then along the outer arc from its start to its end.
pub open spec fn spec_slice_outline(start: int, span: int, taps: int, inner: int, outer: int) -> Seq<PolarPoint> {
    Seq::new(
        (2 * taps) as nat,
        |j: int| if j < taps {
            spec_arc_point(start, span, taps - 1 - j, taps, inner)
        } else {
            spec_arc_point(start, span, j - taps, taps, outer)
        },
    )
}

/// What the geometry functions ask of an arc: at least two samples, and
/// angles no larger than a slice can have.
pub open spec fn spec_arc_ok(start: int, span: int, taps: int) -> bool {
    &&& 2 <= taps <= 0x7fff_ffff
    &&& -angle_limit() <= start <= angle_limit()
    &&& -2 * angle_limit() <= span <= 2 * angle_limit()
}

/// Computes [`spec_arc_point`].
pub fn arc_point(start: i128, span: i128, k: u32, taps: u32, radius: i128) -> (p: PolarPoint)
    requires
        spec_arc_ok(start as int, span as int, taps as int),
        k < taps,
    ensures
        p == spec_arc_point(start as int, span as int, k as int, taps as int, radius as int),
{
    let step: i128 = k as i128;
    assert(-2 * angle_limit() * 0x1_0000_0000 <= span * step <= 2 * angle_limit() * 0x1_0000_0000)
        by (nonlinear_arith)
        requires
            -2 * angle_limit() <= span <= 2 * angle_limit(),
            0 <= step < 0x1_0000_0000,
    ;
    let shift: i128 = floor_div(span * step, (taps - 1) as i128);
    PolarPoint { angle: start + shift, radius }
}

impl Mesh {
    /// A mesh without triangles.
    pub fn new() -> (mesh: Mesh)
        ensures
            mesh.vertices@ == Seq::<Vertex>::empty(),
            mesh.indices@ == Seq::<u32>::empty(),
    {
        Mesh { vertices: Vec::new(), indices: Vec::new() }
    }

    /// Appends the triangles of one slice. Its indices count from the
    /// vertices that the mesh held before, so that no triangle joins two
    /// slices.
    pub fn push_slice(&mut self, start: i128, span: i128, taps: u32, inner: i128, outer: i128, fill: Color)
        requires
            spec_arc_ok(start as int, span as int, taps as int),
            old(self).vertices@.len() + 2 * taps <= u32::MAX,
        ensures
            final(self).vertices@ == old(self).vertices@ + spec_slice_vertices(
                start as int,
                span as int,
                taps as int,
                inner as int,
                outer as int,
                fill,
            ),
            final(self).indices@ == old(self).indices@ + spec_slice_indices(
                old(self).vertices@.len() as int,
                taps as int,
            ),
    {
        let ghost held = self.vertices@;
        let ghost held_indices = self.indices@;
        let ghost all = spec_slice_vertices(start as int, span as int, taps as int, inner as int, outer as int, fill);
        let first: u32 = self.vertices.len() as u32;
        let mut k: u32 = 0;
        while k < taps
            invariant
                k <= taps,
                spec_arc_ok(start as int, span as int, taps as int),
                first == held.len(),
                held.len() + 2 * taps <= u32::MAX,
                all == spec_slice_vertices(start as int, span as int, taps as int, inner as int, outer as int, fill),
                self.vertices@ =~= held + all.take(2 * k),
                self.indices@ =~= held_indices + spec_slice_indices(
                    first as int,
                    if k < taps { k + 1 } else { taps as int },
                ),
            decreases taps - k,
        {
            let low = arc_point(start, span, k, taps, inner);
            let high = arc_point(start, span, k, taps, outer);
            self.vertices.push(Vertex { at: low, color: fill });
            self.vertices.push(Vertex { at: high, color: fill });
            if k != taps - 1 {
                let corner: u32 = first + 2 * k;
                self.indices.push(corner);
                self.indices.push(corner + 1);
                self.indices.push(corner + 2);
                self.indices.push(corner + 1);
                self.indices.push(corner + 2);
                self.indices.push(corner + 3);
            }
            k += 1;
        }
    }
}

/// Computes [`spec_slice_outline`].
pub fn slice_outline(start: i128, span: i128, taps: u32, inner: i128, outer: i128) -> (points: Vec<PolarPoint>)
    requires
        spec_arc_ok(start as int, span as int, taps as int),
    ensures
        points@ == spec_slice_outline(start as int, span as int, taps as int, inner as int, outer as int),
{
    let ghost all = spec_slice_outline(start as int, span as int, taps as int, inner as int, outer as int);
    let mut points: Vec<PolarPoint> = Vec::new();
    let mut k: u32 = taps;
    while k > 0
        invariant
            k <= taps,
            spec_arc_ok(start as int, span as int, taps as int),
            all == spec_slice_outline(start as int, span as int, taps as int, inner as int, outer as int),
            points@ =~= all.take(taps - k),
        decreases k,
    {
        k -= 1;
        let p = arc_point(start, span, k, taps, inner);
        points.push(p);
    }
    let mut k: u32 = 0;
    while k < taps
        invariant
            k <= taps,
            spec_arc_ok(start as int, span as int, taps as int),
            all == spec_slice_outline(start as int, span as int, taps as int, inner as int, outer as int),
            points@ =~= all.take(taps + k),
        decreases taps - k,
    {
        let p = arc_point(start, span, k, taps, outer);
        points.push(p);
        k += 1;
    }
    points
}

} // verus!
