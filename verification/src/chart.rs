//! The chart: its settings, its slices, and what the pointer hovers over.

use vstd::prelude::*;
use crate::fixed::UNIT;
use crate::fixed::floor_div;
use crate::fixed::spec_turns;
use crate::fixed::turns;
use crate::fixed::angle_limit;
use crate::slice::Slice;
use crate::style::Color;
use crate::style::Paint;
use crate::style::dimming;
use crate::style::spec_dimming;
use crate::style::Stroke;
use crate::style::resolve;
use crate::style::spec_resolve;

verus! {

/// Chart-wide settings and the slices, in drawing order.
pub struct Piechart {
    pub slices: Vec<Slice>,
    pub show_background: bool,
    pub width: Option<i64>,
    pub height: Option<i64>,
    pub min_size: (i64, i64),
    pub name: Option<String>,
    pub normalization_factor: Option<i64>,
    pub base_offset: Option<i64>,
    pub top_offset: Option<i64>,
    pub fill: Color,
    pub stroke: Stroke,
}

/// Where the pointer is, seen from the chart's centre: the angle of the
/// direction to it, counter-clockwise from the positive x axis and between
/// minus half a turn and half a turn, and its distance in device units.
#[derive(Clone, Copy, Debug, PartialEq, Eq, Structural)]
pub struct Pointer {
    pub angle: i64,
    pub length: i64,
}

impl Pointer {
    /// The pointer's angle brought into the range that starts at zero: a
    /// negative angle is raised by one turn.
    pub open spec fn spec_angle(&self) -> int {
        if self.angle < 0 { self.angle + UNIT } else { self.angle as int }
    }

    /// The pointer's distance from the centre as a fraction of the radius.
    pub open spec fn spec_dist(&self, radius: i64) -> int {
        self.length * UNIT / radius as int
    }
}

/// Radius of the largest chart that fits a rectangle of the given size with
/// the given padding on each side.
pub open spec fn spec_chart_radius(width: i64, height: i64, spacing_x: i64, spacing_y: i64) -> int {
    let across = width - 2 * spacing_x;
    let down = height - 2 * spacing_y;
    (if across <= down { across } else { down }) / 2
}

/// Computes [`spec_chart_radius`].
pub fn chart_radius(width: i64, height: i64, spacing_x: i64, spacing_y: i64) -> (radius: i128)
    ensures
        radius == spec_chart_radius(width, height, spacing_x, spacing_y),
{
    let across: i128 = width as i128 - 2 * (spacing_x as i128);
    let down: i128 = height as i128 - 2 * (spacing_y as i128);
    let least: i128 = if across <= down { across } else { down };
    floor_div(least, 2)
}

/// A chart narrower than one device unit in radius is not drawn at all.
pub open spec fn spec_drawable(radius: i64) -> bool {
    radius >= UNIT
}

impl Piechart {
    /// A chart of the given slices: drawn on a background, from the centre
    /// to the full radius, without fill and with a white stroke one device
    /// unit wide, and at least sixty-four device units in each direction.
    pub fn new(slices: Vec<Slice>) -> (chart: Piechart)
        ensures
            chart == (Piechart {
                slices,
                show_background: true,
                width: None,
                height: None,
                min_size: (64_000_000i64, 64_000_000i64),
                name: None,
                normalization_factor: None,
                base_offset: None,
                top_offset: None,
                fill: Color::spec_transparent(),
                stroke: Stroke { width: UNIT, color: Color::spec_white() },
            }),
    {
        Piechart {
            slices,
            show_background: true,
            width: None,
            height: None,
            min_size: (64_000_000, 64_000_000),
            name: None,
            normalization_factor: None,
            base_offset: None,
            top_offset: None,
            fill: Color::transparent(),
            stroke: Stroke::new(UNIT, Color::white()),
        }
    }

    pub fn name(self, name: String) -> (chart: Piechart)
        ensures
            chart == (Piechart { name: Some(name), ..self }),
    {
        Piechart { name: Some(name), ..self }
    }

    pub fn normalization_factor(self, normalization_factor: i64) -> (chart: Piechart)
        ensures
            chart == (Piechart { normalization_factor: Some(normalization_factor), ..self }),
    {
        Piechart { normalization_factor: Some(normalization_factor), ..self }
    }

    pub fn base_offset(self, base_offset: i64) -> (chart: Piechart)
        ensures
            chart == (Piechart { base_offset: Some(base_offset), ..self }),
    {
        Piechart { base_offset: Some(base_offset), ..self }
    }

    pub fn top_offset(self, top_offset: i64) -> (chart: Piechart)
        ensures
            chart == (Piechart { top_offset: Some(top_offset), ..self }),
    {
        Piechart { top_offset: Some(top_offset), ..self }
    }

    pub fn fill(self, fill: Color) -> (chart: Piechart)
        ensures
            chart == (Piechart { fill, ..self }),
    {
        Piechart { fill, ..self }
    }

    pub fn stroke(self, stroke: Stroke) -> (chart: Piechart)
        ensures
            chart == (Piechart { stroke, ..self }),
    {
        Piechart { stroke, ..self }
    }

    pub fn show_background(self, show_background: bool) -> (chart: Piechart)
        ensures
            chart == (Piechart { show_background, ..self }),
    {
        Piechart { show_background, ..self }
    }

    /// Width of the chart, which is then also its least width. Without one
    /// the chart fills the space it is given.
    pub fn width(self, width: i64) -> (chart: Piechart)
        ensures
            chart == (Piechart { width: Some(width), min_size: (width, self.min_size.1), ..self }),
    {
        let least = (width, self.min_size.1);
        Piechart { width: Some(width), min_size: least, ..self }
    }

    /// Height of the chart, which is then also its least height. Without
    /// one the chart fills the space it is given.
    pub fn height(self, height: i64) -> (chart: Piechart)
        ensures
            chart == (Piechart { height: Some(height), min_size: (self.min_size.0, height), ..self }),
    {
        let least = (self.min_size.0, height);
        Piechart { height: Some(height), min_size: least, ..self }
    }

    /// Least size of the chart, across and down.
    pub fn min_size(self, min_size: (i64, i64)) -> (chart: Piechart)
        ensures
            chart == (Piechart { min_size, ..self }),
    {
        Piechart { min_size, ..self }
    }

    /// Inner radial bound of slice `i`, as a fraction of the radius.
    pub open spec fn spec_base(&self, i: int) -> i64 {
        spec_resolve(self.slices@[i].base_offset, self.base_offset, 0i64)
    }

    /// Outer radial bound of slice `i`, as a fraction of the radius.
    pub open spec fn spec_top(&self, i: int) -> i64 {
        spec_resolve(self.slices@[i].top_offset, self.top_offset, UNIT)
    }

    /// No slice has its inner bound beyond its outer bound.
    pub open spec fn spec_offsets_ordered(&self) -> bool {
        forall|i: int| 0 <= i < self.slices@.len() ==> #[trigger] self.spec_base(i) <= self.spec_top(i)
    }

    /// The normalization factor can be divided by.
    pub open spec fn spec_factor_usable(&self) -> bool {
        self.normalization_factor != Some(0i64)
    }

    /// What drawing asks of a chart.
    pub open spec fn spec_well_formed(&self) -> bool {
        self.spec_factor_usable() && self.spec_offsets_ordered()
    }

    /// Angle at which slice `i` starts.
    pub open spec fn spec_angle_start(&self, i: int) -> int {
        spec_turns(self.slices@[i].argument as int, self.normalization_factor)
    }

    /// Angle at which slice `i` ends.
    pub open spec fn spec_angle_end(&self, i: int) -> int {
        spec_turns(self.slices@[i].argument + self.slices@[i].width, self.normalization_factor)
    }

    /// Whether the pointer is over slice `i`: its angle within the slice's
    /// range, both ends included, and its distance from the inner bound,
    /// included, up to the outer bound, excluded.
    pub open spec fn spec_hit(&self, i: int, radius: i64, pointer: Pointer) -> bool {
        &&& self.spec_angle_start(i) <= pointer.spec_angle() <= self.spec_angle_end(i)
        &&& self.spec_base(i) <= pointer.spec_dist(radius) < self.spec_top(i)
    }

    /// Whether `found` is the slice that the pointer hovers over: none where
    /// the chart is too small to draw or the pointer unknown, else the last
    /// slice in drawing order that the pointer is over.
    pub open spec fn spec_hovers(&self, radius: i64, pointer: Option<Pointer>, found: Option<usize>) -> bool {
        if !spec_drawable(radius) || pointer is None {
            found is None
        } else {
            match found {
                Some(i) => {
                    &&& i < self.slices@.len()
                    &&& self.spec_hit(i as int, radius, pointer.unwrap())
                    &&& forall|j: int| i < j < self.slices@.len() ==> !self.spec_hit(j, radius, pointer.unwrap())
                },
                None => forall|j: int| 0 <= j < self.slices@.len() ==> !self.spec_hit(j, radius, pointer.unwrap()),
            }
        }
    }

    /// Computes [`Piechart::spec_base`].
    pub fn base_of(&self, i: usize) -> (base: i64)
        requires
            i < self.slices@.len(),
        ensures
            base == self.spec_base(i as int),
    {
        resolve(self.slices[i].base_offset, self.base_offset, 0)
    }

    /// Computes [`Piechart::spec_top`].
    pub fn top_of(&self, i: usize) -> (top: i64)
        requires
            i < self.slices@.len(),
        ensures
            top == self.spec_top(i as int),
    {
        resolve(self.slices[i].top_offset, self.top_offset, UNIT)
    }

    /// Fill colour of slice `i` before dimming: its own, else the chart's.
    pub open spec fn spec_fill(&self, i: int) -> Color {
        spec_resolve(self.slices@[i].fill, None, self.fill)
    }

    /// Stroke of slice `i` before dimming: its own, else the chart's.
    pub open spec fn spec_stroke(&self, i: int) -> Stroke {
        spec_resolve(self.slices@[i].stroke, None, self.stroke)
    }

    /// Computes [`Piechart::spec_fill`].
    pub fn fill_of(&self, i: usize) -> (fill: Color)
        requires
            i < self.slices@.len(),
        ensures
            fill == self.spec_fill(i as int),
    {
        resolve(self.slices[i].fill, None, self.fill)
    }

    /// Computes [`Piechart::spec_stroke`].
    pub fn stroke_of(&self, i: usize) -> (stroke: Stroke)
        requires
            i < self.slices@.len(),
        ensures
            stroke == self.spec_stroke(i as int),
    {
        resolve(self.slices[i].stroke, None, self.stroke)
    }

    /// Whether slice `i` is under the pointer of a chart of the given
    /// radius: the chart is drawn, the pointer known, and over the slice.
    /// Several slices can be under the pointer at once.
    pub open spec fn spec_over(&self, i: int, radius: i64, pointer: Option<Pointer>) -> bool {
        match pointer {
            Some(p) => spec_drawable(radius) && self.spec_hit(i, radius, p),
            None => false,
        }
    }

    /// How slice `i` is to be painted: with its colours as configured,
    /// standing out where it is under the pointer and muted where not.
    pub open spec fn spec_paint(&self, i: int, radius: i64, pointer: Option<Pointer>) -> Paint {
        Paint {
            fill: self.spec_fill(i),
            stroke: self.spec_stroke(i),
            dimming: spec_dimming(self.spec_over(i, radius, pointer)),
        }
    }

    /// Computes [`Piechart::spec_over`].
    pub fn over(&self, i: usize, radius: i64, pointer: Option<Pointer>) -> (under: bool)
        requires
            i < self.slices@.len(),
            spec_drawable(radius) ==> self.spec_factor_usable(),
        ensures
            under == self.spec_over(i as int, radius, pointer),
    {
        match pointer {
            Some(p) => radius >= UNIT && self.hit(i, radius, p),
            None => false,
        }
    }

    /// How each slice is to be painted, in drawing order: every slice that
    /// is under the pointer stands out, every other is muted.
    pub fn paints(&self, radius: i64, pointer: Option<Pointer>) -> (plan: Vec<Paint>)
        requires
            spec_drawable(radius) ==> self.spec_well_formed(),
        ensures
            plan@.len() == self.slices@.len(),
            forall|i: int| 0 <= i < plan@.len() ==> #[trigger] plan@[i] == self.spec_paint(i, radius, pointer),
    {
        let mut plan: Vec<Paint> = Vec::new();
        let mut i: usize = 0;
        while i < self.slices.len()
            invariant
                i <= self.slices@.len(),
                spec_drawable(radius) ==> self.spec_factor_usable(),
                plan@.len() == i,
                forall|j: int| 0 <= j < i ==> #[trigger] plan@[j] == self.spec_paint(j, radius, pointer),
            decreases self.slices@.len() - i,
        {
            let under = self.over(i, radius, pointer);
            plan.push(Paint { fill: self.fill_of(i), stroke: self.stroke_of(i), dimming: dimming(under) });
            i += 1;
        }
        plan
    }

    /// Whether no slice has its inner bound beyond its outer bound. To draw
    /// a chart for which this is false is a mistake of the caller.
    pub fn offsets_ordered(&self) -> (ok: bool)
        ensures
            ok == self.spec_offsets_ordered(),
    {
        let mut i: usize = 0;
        while i < self.slices.len()
            invariant
                i <= self.slices@.len(),
                forall|j: int| 0 <= j < i ==> #[trigger] self.spec_base(j) <= self.spec_top(j),
            decreases self.slices@.len() - i,
        {
            if self.base_of(i) > self.top_of(i) {
                return false;
            }
            i += 1;
        }
        true
    }

    /// Whether the chart can be drawn.
    pub fn is_well_formed(&self) -> (ok: bool)
        ensures
            ok == self.spec_well_formed(),
    {
        match self.normalization_factor {
            Some(f) => f != 0 && self.offsets_ordered(),
            None => self.offsets_ordered(),
        }
    }

    /// Computes [`Piechart::spec_angle_start`].
    pub fn angle_start(&self, i: usize) -> (angle: i128)
        requires
            i < self.slices@.len(),
            self.spec_factor_usable(),
        ensures
            angle == self.spec_angle_start(i as int),
            -angle_limit() <= angle <= angle_limit(),
    {
        turns(self.slices[i].argument as i128, self.normalization_factor)
    }

    /// Computes [`Piechart::spec_angle_end`].
    pub fn angle_end(&self, i: usize) -> (angle: i128)
        requires
            i < self.slices@.len(),
            self.spec_factor_usable(),
        ensures
            angle == self.spec_angle_end(i as int),
            -angle_limit() <= angle <= angle_limit(),
    {
        turns(self.slices[i].argument as i128 + self.slices[i].width as i128, self.normalization_factor)
    }

    /// Tests one slice against the pointer.
    pub fn hit(&self, i: usize, radius: i64, pointer: Pointer) -> (over: bool)
        requires
            i < self.slices@.len(),
            self.spec_factor_usable(),
            spec_drawable(radius),
        ensures
            over == self.spec_hit(i as int, radius, pointer),
    {
        let angle: i128 = if pointer.angle < 0 { pointer.angle as i128 + UNIT as i128 } else { pointer.angle as i128 };
        let length: i128 = pointer.length as i128;
        let dist: i128 = floor_div(length * 1_000_000, radius as i128);
        let start = self.angle_start(i);
        let end = self.angle_end(i);
        let base = self.base_of(i);
        let top = self.top_of(i);
        start <= angle && angle <= end && base as i128 <= dist && dist < top as i128
    }

    /// The slice that the pointer hovers over: the last one in drawing order
    /// that the pointer is over, if the chart is drawn and the pointer known.
    pub fn hovered(&self, radius: i64, pointer: Option<Pointer>) -> (found: Option<usize>)
        requires
            spec_drawable(radius) ==> self.spec_well_formed(),
        ensures
            self.spec_hovers(radius, pointer, found),
    {
        if radius < UNIT {
            return None;
        }
        match pointer {
            None => None,
            Some(p) => {
                let mut found: Option<usize> = None;
                let mut i: usize = 0;
                while i < self.slices.len()
                    invariant
                        i <= self.slices@.len(),
                        self.spec_factor_usable(),
                        spec_drawable(radius),
                        match found {
                            Some(k) => {
                                &&& k < i
                                &&& self.spec_hit(k as int, radius, p)
                                &&& forall|j: int| k < j < i ==> !self.spec_hit(j, radius, p)
                            },
                            None => forall|j: int| 0 <= j < i ==> !self.spec_hit(j, radius, p),
                        },
                    decreases self.slices@.len() - i,
                {
                    if self.hit(i, radius, p) {
                        found = Some(i);
                    }
                    i += 1;
                }
                found
            },
        }
    }
}

} // verus!
