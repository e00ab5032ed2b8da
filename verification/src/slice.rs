//! One segment of the chart.

use vstd::prelude::*;
use crate::ident::id_of;
use crate::style::Color;
use crate::style::Stroke;

verus! {

/// One angular segment of the chart, with its own angle range, radial range
/// and styling. `argument` and `width` are in the caller's units, which the
/// chart's normalization factor turns into turns; the offsets are fractions
/// of the chart radius; `value` is a magnitude shown in the label only.
#[derive(Clone, Debug)]
pub struct Slice {
    pub id: Option<egui::Id>,
    pub argument: i64,
    pub width: i64,
    pub value: Option<i64>,
    pub base_offset: Option<i64>,
    pub top_offset: Option<i64>,
    pub name: Option<String>,
    pub fill: Option<Color>,
    pub stroke: Option<Stroke>,
}

impl Slice {
    /// A slice that starts at `argument` and is `width` wide, with every
    /// other setting left to the chart.
    pub fn new(argument: i64, width: i64) -> (s: Slice)
        ensures
            s == (Slice {
                id: None,
                argument,
                width,
                value: None,
                base_offset: None,
                top_offset: None,
                name: None,
                fill: None,
                stroke: None,
            }),
    {
        Slice {
            id: None,
            argument,
            width,
            value: None,
            base_offset: None,
            top_offset: None,
            name: None,
            fill: None,
            stroke: None,
        }
    }

    pub fn argument(self, argument: i64) -> (s: Slice)
        ensures
            s == (Slice { argument, ..self }),
    {
        Slice { argument, ..self }
    }

    pub fn name(self, name: String) -> (s: Slice)
        ensures
            s == (Slice { name: Some(name), ..self }),
    {
        Slice { name: Some(name), ..self }
    }

    /// Gives the slice an identifier of its own, made from `id`.
    pub fn id<H: std::hash::Hash>(self, id: H) -> (s: Slice)
        ensures
            s.id is Some,
            s == (Slice { id: s.id, ..self }),
    {
        Slice { id: Some(id_of(id)), ..self }
    }

    pub fn width(self, width: i64) -> (s: Slice)
        ensures
            s == (Slice { width, ..self }),
    {
        Slice { width, ..self }
    }

    pub fn base_offset(self, base_offset: i64) -> (s: Slice)
        ensures
            s == (Slice { base_offset: Some(base_offset), ..self }),
    {
        Slice { base_offset: Some(base_offset), ..self }
    }

    pub fn top_offset(self, top_offset: i64) -> (s: Slice)
        ensures
            s == (Slice { top_offset: Some(top_offset), ..self }),
    {
        Slice { top_offset: Some(top_offset), ..self }
    }

    pub fn fill(self, fill: Color) -> (s: Slice)
        ensures
            s == (Slice { fill: Some(fill), ..self }),
    {
        Slice { fill: Some(fill), ..self }
    }

    pub fn stroke(self, stroke: Stroke) -> (s: Slice)
        ensures
            s == (Slice { stroke: Some(stroke), ..self }),
    {
        Slice { stroke: Some(stroke), ..self }
    }

    pub fn value(self, value: i64) -> (s: Slice)
        ensures
            s == (Slice { value: Some(value), ..self }),
    {
        Slice { value: Some(value), ..self }
    }
}

} // verus!
