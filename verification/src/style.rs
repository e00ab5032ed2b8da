//! Colours, strokes, and the rules that pick and dim them.

use vstd::prelude::*;

verus! {

/// A colour with premultiplied alpha, eight bits a channel.
#[derive(Clone, Copy, Debug, PartialEq, Eq, Structural)]
pub struct Color {
    pub r: u8,
    pub g: u8,
    pub b: u8,
    pub a: u8,
}

impl Color {
    /// The colour that paints nothing.
    pub open spec fn spec_transparent() -> Color {
        Color { r: 0, g: 0, b: 0, a: 0 }
    }

    /// Opaque white.
    pub open spec fn spec_white() -> Color {
        Color { r: 255, g: 255, b: 255, a: 255 }
    }

    /// The colour that paints nothing.
    pub fn transparent() -> (c: Color)
        ensures
            c == Color::spec_transparent(),
    {
        Color { r: 0, g: 0, b: 0, a: 0 }
    }

    /// Opaque white.
    pub fn white() -> (c: Color)
        ensures
            c == Color::spec_white(),
    {
        Color { r: 255, g: 255, b: 255, a: 255 }
    }

    /// Whether this is the colour that paints nothing.
    pub fn is_transparent(&self) -> (t: bool)
        ensures
            t == (*self == Color::spec_transparent()),
    {
        self.r == 0 && self.g == 0 && self.b == 0 && self.a == 0
    }
}

/// A line style: a width in millionths of a device unit, and a colour.
#[derive(Clone, Copy, Debug, PartialEq, Eq, Structural)]
pub struct Stroke {
    pub width: i64,
    pub color: Color,
}

impl Stroke {
    /// A stroke draws nothing when it has no width or no colour.
    pub open spec fn spec_is_empty(&self) -> bool {
        self.width <= 0 || self.color == Color::spec_transparent()
    }

    pub fn new(width: i64, color: Color) -> (s: Stroke)
        ensures
            s == (Stroke { width, color }),
    {
        Stroke { width, color }
    }

    /// Computes [`Stroke::spec_is_empty`].
    pub fn is_empty(&self) -> (e: bool)
        ensures
            e == self.spec_is_empty(),
    {
        self.width <= 0 || self.color.is_transparent()
    }
}

/// Three-tier choice of a setting: the slice's own value, else the chart's,
/// else the fallback.
pub open spec fn spec_resolve<T>(own: Option<T>, shared: Option<T>, fallback: T) -> T {
    match own {
        Some(v) => v,
        None => match shared {
            Some(v) => v,
            None => fallback,
        },
    }
}

/// Computes [`spec_resolve`].
pub fn resolve<T>(own: Option<T>, shared: Option<T>, fallback: T) -> (chosen: T)
    ensures
        chosen == spec_resolve(own, shared, fallback),
{
    match own {
        Some(v) => v,
        None => match shared {
            Some(v) => v,
            None => fallback,
        },
    }
}

/// Intensities, in percent, by which a slice's fill and stroke colours are
/// scaled before painting.
#[derive(Clone, Copy, Debug, PartialEq, Eq, Structural)]
pub struct Dimming {
    pub fill_percent: u8,
    pub stroke_percent: u8,
}

/// The hovered slice stands out against the others, which are muted.
pub open spec fn spec_dimming(hovered: bool) -> Dimming {
    if hovered {
        Dimming { fill_percent: 60, stroke_percent: 100 }
    } else {
        Dimming { fill_percent: 20, stroke_percent: 40 }
    }
}

/// Computes [`spec_dimming`].
pub fn dimming(hovered: bool) -> (d: Dimming)
    ensures
        d == spec_dimming(hovered),
{
    if hovered {
        Dimming { fill_percent: 60, stroke_percent: 100 }
    } else {
        Dimming { fill_percent: 20, stroke_percent: 40 }
    }
}

/// How one slice is to be painted: its colours as configured, and the
/// intensities to scale them by.
#[derive(Clone, Copy, Debug, PartialEq, Eq, Structural)]
pub struct Paint {
    pub fill: Color,
    pub stroke: Stroke,
    pub dimming: Dimming,
}

/// The colours that one slice is painted with, after dimming.
#[derive(Clone, Copy, Debug, PartialEq, Eq, Structural)]
pub struct SliceStyle {
    pub fill: Color,
    pub stroke: Stroke,
}

} // verus!
