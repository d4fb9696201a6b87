//! Style configuration values: sizing policies, colors and background fills.
//!
//! Colors and gradient data are opaque payload to the header's logic: they are
//! carried into the draw commands unchanged. Color channels are stored in
//! thousandths (0 = none, 1000 = full intensity); gradient angles and stop
//! offsets are stored in thousandths of their natural unit as well.

use vstd::prelude::*;

verus! {

/// A sizing policy for one axis: consume all offered space, or a fixed
/// extent in whole units.
#[derive(Clone, Copy, Debug, PartialEq, Eq, Structural)]
pub enum Length {
    Fill,
    Fixed(u32),
}

/// An RGBA color, each channel in thousandths of full intensity.
#[derive(Clone, Copy, Debug, PartialEq, Eq, Structural)]
pub struct Color {
    pub r: u16,
    pub g: u16,
    pub b: u16,
    pub a: u16,
}

/// Fully opaque white, the default header background.
pub open spec fn spec_white() -> Color {
    Color { r: 1000, g: 1000, b: 1000, a: 1000 }
}

/// A bottom border: a strip of the given thickness, in whole units, drawn
/// flush with the header's bottom edge in the given color.
#[derive(Clone, Copy, Debug, PartialEq, Eq, Structural)]
pub struct BorderBottom {
    pub thickness: u32,
    pub color: Color,
}

/// A gradient stop: an offset along the gradient line, in thousandths,
/// and the color reached there.
#[derive(Clone, Copy, Debug, PartialEq, Eq, Structural)]
pub struct ColorStop {
    pub offset_milli: i64,
    pub color: Color,
}

/// A linear gradient between two stops, at an angle in milliradians.
#[derive(Clone, Copy, Debug, PartialEq, Eq, Structural)]
pub struct LinearGradient {
    pub angle_milli_rad: i64,
    pub start: ColorStop,
    pub end: ColorStop,
}

/// A fill description for a rectangle: a solid color or a linear gradient.
#[derive(Clone, Copy, Debug, PartialEq, Eq, Structural)]
pub enum Background {
    Color(Color),
    Gradient(LinearGradient),
}

} // verus!
