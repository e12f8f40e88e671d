//! Colors.

use crate::scalar::Scalar;
use vstd::prelude::*;

verus! {

/// A color: red, green, blue and alpha.
#[derive(Clone, Copy, Debug, PartialEq, Eq, Structural)]
pub struct Color {
    pub r: Scalar,
    pub g: Scalar,
    pub b: Scalar,
    pub a: Scalar,
}

impl Color {
    /// The color with the given channels.
    pub fn new(r: Scalar, g: Scalar, b: Scalar, a: Scalar) -> (c: Self)
        ensures
            c == (Color { r, g, b, a }),
    {
        Color { r, g, b, a }
    }

    /// Opaque white: every channel `1.0`.
    pub fn white() -> (c: Self)
        ensures
            c.r.bits == 0x3f80_0000,
            c.g.bits == 0x3f80_0000,
            c.b.bits == 0x3f80_0000,
            c.a.bits == 0x3f80_0000,
    {
        Color { r: Scalar::one(), g: Scalar::one(), b: Scalar::one(), a: Scalar::one() }
    }
}

} // verus!
