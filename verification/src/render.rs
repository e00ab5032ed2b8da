//! One drawing pass over a chart: the mesh and the outlines of its slices.

use vstd::prelude::*;
use crate::chart::Piechart;
use crate::chart::spec_drawable;
use crate::fixed::UNIT;
use crate::fixed::floor_div;
use crate::fixed::spec_tap_count;
use crate::fixed::tap_count;
use crate::mesh::Mesh;
use crate::mesh::Outline;
use crate::mesh::OutlineView;
use crate::mesh::Vertex;
use crate::mesh::slice_outline;
use crate::mesh::spec_slice_indices;
use crate::mesh::spec_slice_outline;
use crate::mesh::spec_slice_vertices;
use crate::style::Color;
use crate::style::SliceStyle;

verus! {

/// Most angular samples that the slices of one chart may have together, so
/// that every vertex has an index.
pub const MAX_TAPS: u32 = 0x7fff_ffff;

/// What one drawing pass hands to the painter.
#[derive(Debug)]
pub struct Frame {
    pub mesh: Mesh,
    pub outlines: Vec<Outline>,
}

/// Why a chart was not drawn.
#[derive(Clone, Copy, Debug, PartialEq, Eq, Structural)]
pub enum RenderError {
    /// There is not one style for each slice.
    StyleCount,
    /// The slices have more than [`MAX_TAPS`] samples together.
    TooManyTaps,
}

impl Piechart {
    /// Angle that slice `i` spans.
    pub open spec fn spec_span(&self, i: int) -> int {
        self.spec_angle_end(i) - self.spec_angle_start(i)
    }

    /// Number of angular samples of slice `i`.
    pub open spec fn spec_taps(&self, i: int) -> int {
        spec_tap_count(self.spec_span(i))
    }

    /// Number of angular samples of the first `n` slices together.
    pub open spec fn spec_total_taps(&self, n: int) -> int
        decreases n,
    {
        if n <= 0 {
            0
        } else {
            self.spec_total_taps(n - 1) + self.spec_taps(n - 1)
        }
    }

    /// Distance of the inner arc of slice `i` from the centre: never less
    /// than one and a half device units.
    pub open spec fn spec_inner(&self, i: int, radius: i64) -> int {
        let r = self.spec_base(i) * radius / UNIT as int;
        if r < 1_500_000 { 1_500_000 } else { r }
    }

    /// Distance of the outer arc of slice `i` from the centre.
    pub open spec fn spec_outer(&self, i: int, radius: i64) -> int {
        self.spec_top(i) * radius / UNIT as int
    }

    /// What slice `i` adds to the vertices of the mesh.
    pub open spec fn spec_vertices_of(&self, i: int, radius: i64, fill: Color) -> Seq<Vertex> {
        if fill == Color::spec_transparent() {
            Seq::empty()
        } else {
            spec_slice_vertices(
                self.spec_angle_start(i),
                self.spec_span(i),
                self.spec_taps(i),
                self.spec_inner(i, radius),
                self.spec_outer(i, radius),
                fill,
            )
        }
    }

    /// What slice `i` adds to the indices of a mesh that holds `held`
    /// vertices already.
    pub open spec fn spec_indices_of(&self, i: int, held: int, fill: Color) -> Seq<u32> {
        if fill == Color::spec_transparent() {
            Seq::empty()
        } else {
            spec_slice_indices(held, self.spec_taps(i))
        }
    }

    /// The line around slice `i`.
    pub open spec fn spec_outline_of(&self, i: int, radius: i64, style: SliceStyle) -> OutlineView {
        OutlineView {
            points: spec_slice_outline(
                self.spec_angle_start(i),
                self.spec_span(i),
                self.spec_taps(i),
                self.spec_inner(i, radius),
                self.spec_outer(i, radius),
            ),
            stroke: style.stroke,
        }
    }

    /// Vertices of the first `n` slices, in drawing order.
    pub open spec fn spec_mesh_vertices(&self, radius: i64, styles: Seq<SliceStyle>, n: int) -> Seq<Vertex>
        decreases n,
    {
        if n <= 0 {
            Seq::empty()
        } else {
            self.spec_mesh_vertices(radius, styles, n - 1) + self.spec_vertices_of(
                n - 1,
                radius,
                styles[n - 1].fill,
            )
        }
    }

    /// Indices of the first `n` slices, in drawing order.
    pub open spec fn spec_mesh_indices(&self, radius: i64, styles: Seq<SliceStyle>, n: int) -> Seq<u32>
        decreases n,
    {
        if n <= 0 {
            Seq::empty()
        } else {
            self.spec_mesh_indices(radius, styles, n - 1) + self.spec_indices_of(
                n - 1,
                self.spec_mesh_vertices(radius, styles, n - 1).len() as int,
                styles[n - 1].fill,
            )
        }
    }

    /// Outlines of the first `n` slices, in drawing order: one for each
    /// slice whose stroke draws anything.
    pub open spec fn spec_outlines(&self, radius: i64, styles: Seq<SliceStyle>, n: int) -> Seq<OutlineView>
        decreases n,
    {
        if n <= 0 {
            Seq::empty()
        } else if styles[n - 1].stroke.spec_is_empty() {
            self.spec_outlines(radius, styles, n - 1)
        } else {
            self.spec_outlines(radius, styles, n - 1).push(self.spec_outline_of(n - 1, radius, styles[n - 1]))
        }
    }

    /// Whether `out` is what drawing the chart gives: the frame of all its
    /// slices; an empty frame where the chart is too small to draw; or the
    /// reason for which it was not drawn.
    pub open spec fn spec_renders(&self, radius: i64, styles: Seq<SliceStyle>, out: Result<Frame, RenderError>) -> bool {
        let n = self.slices@.len() as int;
        match out {
            Ok(frame) => if spec_drawable(radius) {
                &&& styles.len() == n
                &&& self.spec_total_taps(n) <= MAX_TAPS
                &&& frame.mesh.vertices@ == self.spec_mesh_vertices(radius, styles, n)
                &&& frame.mesh.indices@ == self.spec_mesh_indices(radius, styles, n)
                &&& frame.outlines@.len() == self.spec_outlines(radius, styles, n).len()
                &&& forall|j: int| 0 <= j < frame.outlines@.len() ==> (#[trigger] frame.outlines@[j])@
                    == self.spec_outlines(radius, styles, n)[j]
            } else {
                &&& frame.mesh.vertices@.len() == 0
                &&& frame.mesh.indices@.len() == 0
                &&& frame.outlines@.len() == 0
            },
            Err(RenderError::StyleCount) => {
                &&& spec_drawable(radius)
                &&& styles.len() != n
            },
            Err(RenderError::TooManyTaps) => {
                &&& spec_drawable(radius)
                &&& styles.len() == n
                &&& self.spec_total_taps(n) > MAX_TAPS
            },
        }
    }

    /// The samples of more slices are never fewer.
    pub proof fn lemma_total_taps_grows(&self, a: int, b: int)
        requires
            0 <= a <= b,
        ensures
            self.spec_total_taps(a) <= self.spec_total_taps(b),
        decreases b,
    {
        if a < b {
            self.lemma_total_taps_grows(a, b - 1);
        }
    }

    /// Number of angular samples of slice `i`.
    pub fn taps_of(&self, i: usize) -> (taps: i128)
        requires
            i < self.slices@.len(),
            self.spec_factor_usable(),
        ensures
            taps == self.spec_taps(i as int),
            taps >= 2,
    {
        tap_count(self.angle_end(i) - self.angle_start(i))
    }

    /// Computes [`Piechart::spec_inner`].
    pub fn inner_radius(&self, i: usize, radius: i64) -> (r: i128)
        requires
            i < self.slices@.len(),
        ensures
            r == self.spec_inner(i as int, radius),
    {
        let base: i128 = self.base_of(i) as i128;
        let whole: i128 = radius as i128;
        assert(-0x4000_0000_0000_0000_0000_0000_0000_0000 <= base * whole
            <= 0x4000_0000_0000_0000_0000_0000_0000_0000) by (nonlinear_arith)
            requires
                -0x8000_0000_0000_0000 <= base <= 0x8000_0000_0000_0000,
                -0x8000_0000_0000_0000 <= whole <= 0x8000_0000_0000_0000,
        ;
        let r: i128 = floor_div(base * whole, 1_000_000);
        if r < 1_500_000 { 1_500_000 } else { r }
    }

    /// Computes [`Piechart::spec_outer`].
    pub fn outer_radius(&self, i: usize, radius: i64) -> (r: i128)
        requires
            i < self.slices@.len(),
        ensures
            r == self.spec_outer(i as int, radius),
    {
        let top: i128 = self.top_of(i) as i128;
        let whole: i128 = radius as i128;
        assert(-0x4000_0000_0000_0000_0000_0000_0000_0000 <= top * whole
            <= 0x4000_0000_0000_0000_0000_0000_0000_0000) by (nonlinear_arith)
            requires
                -0x8000_0000_0000_0000 <= top <= 0x8000_0000_0000_0000,
                -0x8000_0000_0000_0000 <= whole <= 0x8000_0000_0000_0000,
        ;
        floor_div(top * whole, 1_000_000)
    }

    /// Builds the mesh and the outlines of a chart of the given radius,
    /// slice by slice in drawing order, from the colours that each slice is
    /// painted with. A slice whose fill is transparent adds nothing to the
    /// mesh, and one whose stroke is empty has no outline. A chart that is
    /// too small to draw gives an empty frame, whatever it holds.
    pub fn tessellate(&self, radius: i64, styles: &Vec<SliceStyle>) -> (out: Result<Frame, RenderError>)
        requires
            spec_drawable(radius) ==> self.spec_well_formed(),
        ensures
            self.spec_renders(radius, styles@, out),
    {
        let mut mesh = Mesh::new();
        let mut outlines: Vec<Outline> = Vec::new();
        if radius < UNIT {
            return Ok(Frame { mesh, outlines });
        }
        if styles.len() != self.slices.len() {
            return Err(RenderError::StyleCount);
        }
        let mut total: i128 = 0;
        let mut i: usize = 0;
        while i < self.slices.len()
            invariant
                i <= self.slices@.len(),
                styles@.len() == self.slices@.len(),
                spec_drawable(radius),
                self.spec_well_formed(),
                total == self.spec_total_taps(i as int),
                0 <= total <= MAX_TAPS,
                mesh.vertices@.len() <= 2 * total,
                mesh.vertices@ == self.spec_mesh_vertices(radius, styles@, i as int),
                mesh.indices@ == self.spec_mesh_indices(radius, styles@, i as int),
                outlines@.len() == self.spec_outlines(radius, styles@, i as int).len(),
                forall|j: int| 0 <= j < outlines@.len() ==> (#[trigger] outlines@[j])@
                    == self.spec_outlines(radius, styles@, i as int)[j],
            decreases self.slices@.len() - i,
        {
            let start = self.angle_start(i);
            let end = self.angle_end(i);
            let span: i128 = end - start;
            let wide = tap_count(span);
            if wide > MAX_TAPS as i128 - total {
                proof {
                    self.lemma_total_taps_grows(i + 1, self.slices@.len() as int);
                }
                return Err(RenderError::TooManyTaps);
            }
            total = total + wide;
            let taps: u32 = wide as u32;
            let inner = self.inner_radius(i, radius);
            let outer = self.outer_radius(i, radius);
            let style = styles[i];
            if !style.fill.is_transparent() {
                mesh.push_slice(start, span, taps, inner, outer, style.fill);
            }
            if !style.stroke.is_empty() {
                let points = slice_outline(start, span, taps, inner, outer);
                outlines.push(Outline { points, stroke: style.stroke });
            }
            i += 1;
        }
        Ok(Frame { mesh, outlines })
    }
}

} // verus!
