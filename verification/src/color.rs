//! Colours, as the renderer clears the surface with them.
//!
//! A colour has four channels. A channel is zero, one, or the quotient of a
//! cursor coordinate by an extent of the surface. The quotient is kept as
//! its two operands: nothing here divides, whoever hands the colour to the
//! graphics device does.

use vstd::prelude::*;

verus! {

/// A cursor coordinate in physical pixels.
///
/// Window systems report it as a double-precision number. It is held by its
/// bit pattern, because this crate never computes with it: it is carried
/// from the event into the colour.
#[derive(Clone, Copy, Debug, PartialEq, Eq, Structural)]
pub struct Coordinate {
    pub bits: u64,
}

impl Coordinate {
    /// The coordinate with the given bit pattern.
    pub fn from_bits(bits: u64) -> (coordinate: Coordinate)
        ensures
            coordinate.bits == bits,
    {
        Coordinate { bits }
    }

    /// The bit pattern of the coordinate.
    pub fn to_bits(self) -> (bits: u64)
        ensures
            bits == self.bits,
    {
        self.bits
    }
}

/// One channel of a colour.
#[derive(Clone, Copy, Debug, PartialEq, Eq, Structural)]
pub enum Channel {
    /// No intensity.
    Zero,
    /// Full intensity.
    One,
    /// `position` divided by `extent`.
    Ratio { position: Coordinate, extent: u32 },
}

/// A colour with red, green, blue and alpha channels.
#[derive(Clone, Copy, Debug, PartialEq, Eq, Structural)]
pub struct Color {
    pub r: Channel,
    pub g: Channel,
    pub b: Channel,
    pub a: Channel,
}

/// Opaque black.
pub open spec fn solid_black() -> Color {
    Color { r: Channel::Zero, g: Channel::Zero, b: Channel::Zero, a: Channel::One }
}

/// Opaque green.
pub open spec fn solid_green() -> Color {
    Color { r: Channel::Zero, g: Channel::One, b: Channel::Zero, a: Channel::One }
}

/// Opaque blue.
pub open spec fn solid_blue() -> Color {
    Color { r: Channel::Zero, g: Channel::Zero, b: Channel::One, a: Channel::One }
}

/// The colour sampled at cursor position (`x`, `y`) on a surface of
/// `width` by `height` pixels: red is `x / width`, green is `y / height`,
/// blue and alpha are one.
pub open spec fn sampled_at(x: Coordinate, y: Coordinate, width: u32, height: u32) -> Color {
    Color {
        r: Channel::Ratio { position: x, extent: width },
        g: Channel::Ratio { position: y, extent: height },
        b: Channel::One,
        a: Channel::One,
    }
}

impl Color {
    /// Opaque black.
    pub fn black() -> (color: Color)
        ensures
            color == solid_black(),
    {
        Color { r: Channel::Zero, g: Channel::Zero, b: Channel::Zero, a: Channel::One }
    }

    /// Opaque green.
    pub fn green() -> (color: Color)
        ensures
            color == solid_green(),
    {
        Color { r: Channel::Zero, g: Channel::One, b: Channel::Zero, a: Channel::One }
    }

    /// Opaque blue.
    pub fn blue() -> (color: Color)
        ensures
            color == solid_blue(),
    {
        Color { r: Channel::Zero, g: Channel::Zero, b: Channel::One, a: Channel::One }
    }

    /// The colour sampled at cursor position (`x`, `y`) on a surface of
    /// `width` by `height` pixels.
    pub fn sampled(x: Coordinate, y: Coordinate, width: u32, height: u32) -> (color: Color)
        ensures
            color == sampled_at(x, y, width, height),
    {
        Color {
            r: Channel::Ratio { position: x, extent: width },
            g: Channel::Ratio { position: y, extent: height },
            b: Channel::One,
            a: Channel::One,
        }
    }
}

} // verus!
