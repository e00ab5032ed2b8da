//! Geometry and interaction engine of an annular pie chart.
//!
//! All scalar quantities are fixed-point integers with [`fixed::UNIT`] steps
//! per whole: angles are counted in millionths of a turn, radial offsets in
//! millionths of the chart radius, lengths in millionths of a device unit.
//! A point of the output is given in polar form around the chart's centre;
//! whoever paints it turns it into screen coordinates.

pub mod fixed;
pub mod ident;
pub mod style;
pub mod slice;
pub mod chart;
pub mod mesh;
pub mod render;
pub mod label;
pub mod laws;

pub use chart::Piechart;
pub use chart::Pointer;
pub use render::Frame;
pub use render::RenderError;
pub use slice::Slice;
pub use style::Color;
pub use style::Stroke;
