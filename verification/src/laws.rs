//! What holds of every chart, pointer and frame.

use vstd::prelude::*;
use vstd::arithmetic::div_mod::lemma_div_basics;
use vstd::arithmetic::div_mod::lemma_div_multiples_vanish;
use crate::chart::Piechart;
use crate::chart::Pointer;
use crate::chart::spec_drawable;
use crate::fixed::UNIT;
use crate::fixed::spec_tap_count;
use crate::fixed::spec_turns;
use crate::mesh::spec_slice_outline;
use crate::mesh::spec_slice_vertices;
use crate::mesh::spec_tap_angle;
use crate::mesh::spec_slice_indices;
use crate::render::Frame;
use crate::render::MAX_TAPS;
use crate::render::RenderError;
use crate::style::Color;
use crate::style::SliceStyle;
use crate::style::spec_dimming;

verus! {

/// The test against a pointer takes in both ends of a slice's angular
/// range and the inner end of its radial range, and leaves out the outer
/// end of the radial range.
pub proof fn lemma_hit_boundaries(chart: Piechart, i: int, radius: i64, pointer: Pointer)
    requires
        0 <= i < chart.slices@.len(),
    ensures
        pointer.spec_dist(radius) == chart.spec_top(i) ==> !chart.spec_hit(i, radius, pointer),
        pointer.spec_angle() == chart.spec_angle_start(i) && chart.spec_angle_start(i) <= chart.spec_angle_end(i)
            && chart.spec_base(i) <= pointer.spec_dist(radius) < chart.spec_top(i) ==> chart.spec_hit(
            i,
            radius,
            pointer,
        ),
        pointer.spec_angle() == chart.spec_angle_end(i) && chart.spec_angle_start(i) <= chart.spec_angle_end(i)
            && chart.spec_base(i) <= pointer.spec_dist(radius) < chart.spec_top(i) ==> chart.spec_hit(
            i,
            radius,
            pointer,
        ),
        pointer.spec_dist(radius) == chart.spec_base(i) && chart.spec_base(i) < chart.spec_top(i)
            && chart.spec_angle_start(i) <= pointer.spec_angle() <= chart.spec_angle_end(i) ==> chart.spec_hit(
            i,
            radius,
            pointer,
        ),
{
}

/// Of two slices of which one ends, radially, where the other begins or
/// before, the pointer is over one at most.
pub proof fn lemma_radial_neighbours_apart(chart: Piechart, i: int, j: int, radius: i64, pointer: Pointer)
    requires
        0 <= i < chart.slices@.len(),
        0 <= j < chart.slices@.len(),
        chart.spec_top(i) <= chart.spec_base(j),
    ensures
        !(chart.spec_hit(i, radius, pointer) && chart.spec_hit(j, radius, pointer)),
{
}

/// Of two slices that meet at an angle, both have a pointer at that angle
/// over them if it is within the radial range of both.
pub proof fn lemma_angular_neighbours_share(chart: Piechart, i: int, j: int, radius: i64, pointer: Pointer)
    requires
        0 <= i < chart.slices@.len(),
        0 <= j < chart.slices@.len(),
        chart.spec_angle_start(i) <= chart.spec_angle_end(i),
        chart.spec_angle_end(i) == chart.spec_angle_start(j),
        chart.spec_angle_start(j) <= chart.spec_angle_end(j),
        pointer.spec_angle() == chart.spec_angle_end(i),
        chart.spec_base(i) <= pointer.spec_dist(radius) < chart.spec_top(i),
        chart.spec_base(j) <= pointer.spec_dist(radius) < chart.spec_top(j),
    ensures
        chart.spec_hit(i, radius, pointer),
        chart.spec_hit(j, radius, pointer),
{
}

/// Where the pointer is over a slice, the hovered slice is that one or a
/// later one in drawing order: of several, the last.
pub proof fn lemma_later_slice_wins(
    chart: Piechart,
    j: int,
    radius: i64,
    pointer: Pointer,
    found: Option<usize>,
)
    requires
        0 <= j < chart.slices@.len(),
        spec_drawable(radius),
        chart.spec_hit(j, radius, pointer),
        chart.spec_hovers(radius, Some(pointer), found),
    ensures
        match found {
            Some(k) => j <= k,
            None => false,
        },
{
    assert(chart.spec_hit(j, radius, Some(pointer).unwrap()));
}

/// A slice is painted as hovered exactly when it is under the pointer,
/// whichever other slices are; its colours before dimming are its own or
/// the chart's.
pub proof fn lemma_painted_as_hovered_iff_under_pointer(
    chart: Piechart,
    i: int,
    radius: i64,
    pointer: Option<Pointer>,
)
    requires
        0 <= i < chart.slices@.len(),
    ensures
        chart.spec_paint(i, radius, pointer).dimming == spec_dimming(true) <==> chart.spec_over(i, radius, pointer),
        chart.spec_paint(i, radius, pointer).dimming == spec_dimming(false) <==> !chart.spec_over(
            i,
            radius,
            pointer,
        ),
        chart.spec_over(i, radius, pointer) <==> spec_drawable(radius) && pointer is Some && chart.spec_hit(
            i,
            radius,
            pointer.unwrap(),
        ),
        chart.spec_paint(i, radius, pointer).fill == chart.spec_fill(i),
        chart.spec_paint(i, radius, pointer).stroke == chart.spec_stroke(i),
{
}

/// The slice that is reported as hovered is among those painted as
/// hovered, and no slice after it is.
pub proof fn lemma_hovered_slice_is_painted_as_hovered(
    chart: Piechart,
    radius: i64,
    pointer: Option<Pointer>,
    found: Option<usize>,
    j: int,
)
    requires
        chart.spec_hovers(radius, pointer, found),
        0 <= j < chart.slices@.len(),
    ensures
        found is Some ==> chart.spec_over(found.unwrap() as int, radius, pointer),
        found is Some && found.unwrap() < j ==> !chart.spec_over(j, radius, pointer),
        found is None ==> !chart.spec_over(j, radius, pointer),
{
    if pointer is Some {
        assert(chart.spec_hit(j, radius, pointer.unwrap()) == chart.spec_over(j, radius, pointer)
            || !spec_drawable(radius));
    }
}

/// Two slices that meet at an angle are both painted as hovered while the
/// pointer is at that angle and within the radial range of both.
pub proof fn lemma_angular_neighbours_both_painted(chart: Piechart, i: int, j: int, radius: i64, pointer: Pointer)
    requires
        0 <= i < chart.slices@.len(),
        0 <= j < chart.slices@.len(),
        spec_drawable(radius),
        chart.spec_angle_start(i) <= chart.spec_angle_end(i),
        chart.spec_angle_end(i) == chart.spec_angle_start(j),
        chart.spec_angle_start(j) <= chart.spec_angle_end(j),
        pointer.spec_angle() == chart.spec_angle_end(i),
        chart.spec_base(i) <= pointer.spec_dist(radius) < chart.spec_top(i),
        chart.spec_base(j) <= pointer.spec_dist(radius) < chart.spec_top(j),
    ensures
        chart.spec_paint(i, radius, Some(pointer)).dimming == spec_dimming(true),
        chart.spec_paint(j, radius, Some(pointer)).dimming == spec_dimming(true),
{
}

/// A pointer on the centre of a drawn chart is over every slice that
/// reaches the centre, has some radial extent, and has the pointer's angle
/// in its range; each such slice is painted as hovered.
pub proof fn lemma_centre_hit(chart: Piechart, i: int, radius: i64, pointer: Pointer)
    requires
        0 <= i < chart.slices@.len(),
        spec_drawable(radius),
        pointer.length == 0,
        chart.spec_base(i) == 0,
        chart.spec_top(i) > 0,
        chart.spec_angle_start(i) <= pointer.spec_angle() <= chart.spec_angle_end(i),
    ensures
        chart.spec_hit(i, radius, pointer),
        chart.spec_paint(i, radius, Some(pointer)).dimming == spec_dimming(true),
{
    lemma_div_basics(radius as int);
}

/// With the factor one, and without a factor, an angle is what the slice
/// says: a quarter is a quarter of a turn.
pub proof fn lemma_unit_factor(x: int)
    ensures
        spec_turns(x, Some(UNIT)) == x,
        spec_turns(x, None) == x,
{
}

/// A chart too small to draw has an empty frame and no hovered slice,
/// whatever its slices are.
pub proof fn lemma_small_chart_is_blank(
    chart: Piechart,
    radius: i64,
    styles: Seq<SliceStyle>,
    pointer: Option<Pointer>,
    out: Result<Frame, RenderError>,
    found: Option<usize>,
)
    requires
        radius < UNIT,
        chart.spec_renders(radius, styles, out),
        chart.spec_hovers(radius, pointer, found),
    ensures
        out is Ok,
        out->Ok_0.mesh.vertices@.len() == 0,
        out->Ok_0.mesh.indices@.len() == 0,
        out->Ok_0.outlines@.len() == 0,
        found is None,
{
}

/// Drawing is owed to every chart whose slices have their offsets in
/// order: with a factor that can be divided by, one style for each slice
/// and no more samples than a mesh can index, a frame comes back. A chart
/// with a slice whose inner bound lies beyond its outer bound is not well
/// formed, and no caller may ask for it to be drawn.
pub proof fn lemma_ordered_offsets_decide_drawing(
    chart: Piechart,
    radius: i64,
    styles: Seq<SliceStyle>,
    out: Result<Frame, RenderError>,
)
    requires
        chart.spec_renders(radius, styles, out),
    ensures
        chart.spec_offsets_ordered() <==> (forall|i: int|
            0 <= i < chart.slices@.len() ==> #[trigger] chart.spec_base(i) <= chart.spec_top(i)),
        !chart.spec_offsets_ordered() <==> (exists|i: int|
            0 <= i < chart.slices@.len() && #[trigger] chart.spec_base(i) > chart.spec_top(i)),
        !chart.spec_offsets_ordered() ==> !chart.spec_well_formed(),
        chart.spec_offsets_ordered() && chart.spec_factor_usable() ==> chart.spec_well_formed(),
        out is Ok <==> !spec_drawable(radius) || (styles.len() == chart.slices@.len() && chart.spec_total_taps(
            chart.slices@.len() as int,
        ) <= MAX_TAPS),
{
}

/// A slice with a transparent fill and a stroke that draws adds no vertex
/// and no index to the mesh, and exactly one outline, its own: closed
/// around the slice, with the slice's stroke, and with two points for each
/// sample.
pub proof fn lemma_outline_without_fill(chart: Piechart, radius: i64, styles: Seq<SliceStyle>, i: int)
    requires
        0 <= i < chart.slices@.len(),
        styles.len() == chart.slices@.len(),
        styles[i].fill == Color::spec_transparent(),
        !styles[i].stroke.spec_is_empty(),
    ensures
        chart.spec_vertices_of(i, radius, styles[i].fill).len() == 0,
        chart.spec_mesh_vertices(radius, styles, i + 1) == chart.spec_mesh_vertices(radius, styles, i),
        chart.spec_mesh_indices(radius, styles, i + 1) == chart.spec_mesh_indices(radius, styles, i),
        chart.spec_outlines(radius, styles, i + 1) == chart.spec_outlines(radius, styles, i).push(
            chart.spec_outline_of(i, radius, styles[i]),
        ),
        chart.spec_outlines(radius, styles, i + 1).len() == chart.spec_outlines(radius, styles, i).len() + 1,
        chart.spec_outline_of(i, radius, styles[i]).stroke == styles[i].stroke,
        chart.spec_outline_of(i, radius, styles[i]).points.len() == 2 * chart.spec_taps(i),
{
}

/// In the frame of a drawn chart, all of whose slices have a transparent
/// fill and a stroke that draws, the mesh is empty and each slice has one
/// outline, in drawing order.
pub proof fn lemma_frame_of_outlines_only(
    chart: Piechart,
    radius: i64,
    styles: Seq<SliceStyle>,
    out: Result<Frame, RenderError>,
    n: int,
)
    requires
        spec_drawable(radius),
        styles.len() == chart.slices@.len(),
        chart.spec_total_taps(chart.slices@.len() as int) <= MAX_TAPS,
        chart.spec_renders(radius, styles, out),
        forall|i: int|
            0 <= i < styles.len() ==> (#[trigger] styles[i]).fill == Color::spec_transparent()
                && !styles[i].stroke.spec_is_empty(),
        0 <= n <= chart.slices@.len(),
    ensures
        out is Ok,
        chart.spec_mesh_vertices(radius, styles, n).len() == 0,
        chart.spec_mesh_indices(radius, styles, n).len() == 0,
        chart.spec_outlines(radius, styles, n).len() == n,
        n > 0 ==> chart.spec_outlines(radius, styles, n)[n - 1] == chart.spec_outline_of(
            n - 1,
            radius,
            styles[n - 1],
        ),
        n == chart.slices@.len() ==> {
            &&& out->Ok_0.mesh.vertices@.len() == 0
            &&& out->Ok_0.mesh.indices@.len() == 0
            &&& out->Ok_0.outlines@.len() == chart.slices@.len()
        },
    decreases n,
{
    if n > 0 {
        lemma_frame_of_outlines_only(chart, radius, styles, out, n - 1);
    }
}

/// Drawing the same chart twice gives the same frame: the same vertices,
/// indices and outlines, or the same refusal.
pub proof fn lemma_same_frame(
    chart: Piechart,
    radius: i64,
    styles: Seq<SliceStyle>,
    a: Result<Frame, RenderError>,
    b: Result<Frame, RenderError>,
)
    requires
        chart.spec_renders(radius, styles, a),
        chart.spec_renders(radius, styles, b),
    ensures
        a is Ok <==> b is Ok,
        a is Err ==> a->Err_0 == b->Err_0,
        a is Ok ==> {
            &&& a->Ok_0.mesh.vertices@ =~= b->Ok_0.mesh.vertices@
            &&& a->Ok_0.mesh.indices@ =~= b->Ok_0.mesh.indices@
            &&& a->Ok_0.outlines@.len() == b->Ok_0.outlines@.len()
            &&& forall|j: int| 0 <= j < a->Ok_0.outlines@.len() ==> (#[trigger] a->Ok_0.outlines@[j])@
                == b->Ok_0.outlines@[j]@
        },
{
}

/// The same chart under the same pointer has the same hovered slice.
pub proof fn lemma_same_hover(
    chart: Piechart,
    radius: i64,
    pointer: Option<Pointer>,
    a: Option<usize>,
    b: Option<usize>,
)
    requires
        chart.spec_hovers(radius, pointer, a),
        chart.spec_hovers(radius, pointer, b),
    ensures
        a == b,
{
}

/// The triangles of a slice have their corners among the slice's own
/// vertices.
pub proof fn lemma_indices_stay_in_slice(first: int, taps: int, j: int)
    requires
        0 <= first,
        2 <= taps,
        first + 2 * taps <= u32::MAX,
        0 <= j < 6 * (taps - 1),
    ensures
        first <= spec_slice_indices(first, taps)[j] < first + 2 * taps,
{
}

/// The samples of a slice reach from its start to its end: the first lies
/// on the start, the last on the end.
pub proof fn lemma_samples_span_the_slice(start: int, span: int, taps: int)
    requires
        2 <= taps,
    ensures
        spec_tap_angle(start, span, 0, taps) == start,
        spec_tap_angle(start, span, taps - 1, taps) == start + span,
{
    lemma_div_basics(taps - 1);
    lemma_div_multiples_vanish(span, taps - 1);
    assert(span * 0 == 0);
    assert(span * (taps - 1) == (taps - 1) * span) by (nonlinear_arith);
}

/// A wider span never has fewer samples.
pub proof fn lemma_wider_span_more_taps(narrow: int, wide: int)
    requires
        narrow <= wide,
    ensures
        2 <= spec_tap_count(narrow) <= spec_tap_count(wide),
{
}

/// A slice with its samples has two vertices for each sample, two
/// triangles between a sample and the next, and an outline that passes
/// each sample twice.
pub proof fn lemma_slice_sizes(start: int, span: int, taps: int, inner: int, outer: int, fill: Color)
    requires
        2 <= taps,
    ensures
        spec_slice_vertices(start, span, taps, inner, outer, fill).len() == 2 * taps,
        spec_slice_indices(0, taps).len() == 3 * 2 * (taps - 1),
        spec_slice_outline(start, span, taps, inner, outer).len() == 2 * taps,
{
}

/// The outline of a slice is a ring: it turns from the inner arc to the
/// outer arc at one angle, the slice's start, and ends on the outer arc at
/// the angle at which it began on the inner arc, the slice's end.
pub proof fn lemma_outline_is_a_ring(start: int, span: int, taps: int, inner: int, outer: int)
    requires
        2 <= taps,
    ensures
        ({
            let ring = spec_slice_outline(start, span, taps, inner, outer);
            &&& ring[0].angle == ring[2 * taps - 1].angle
            &&& ring[taps - 1].angle == ring[taps].angle
            &&& forall|j: int| 0 <= j < taps ==> (#[trigger] ring[j]).radius == inner as i128
            &&& forall|j: int| taps <= j < 2 * taps ==> (#[trigger] ring[j]).radius == outer as i128
        }),
{
}

} // verus!
