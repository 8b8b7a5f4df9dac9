//! Colors as unbounded channel intensities over fixed-point reals.

use vstd::prelude::*;
use crate::fx::{Fx, fx_add, fx_mul, SCALE};

verus! {

/// Mathematical model of a color: its three raw channel values.
pub struct ColorV {
    pub r: int,
    pub g: int,
    pub b: int,
}

/// Channelwise sum.
pub open spec fn c_add(a: ColorV, b: ColorV) -> ColorV {
    ColorV { r: fx_add(a.r, b.r), g: fx_add(a.g, b.g), b: fx_add(a.b, b.b) }
}

/// Channelwise product: modulates one color by another.
pub open spec fn c_mul(a: ColorV, b: ColorV) -> ColorV {
    ColorV { r: fx_mul(a.r, b.r), g: fx_mul(a.g, b.g), b: fx_mul(a.b, b.b) }
}

/// Every channel scaled by the same factor.
pub open spec fn c_scale(k: int, c: ColorV) -> ColorV {
    ColorV { r: fx_mul(k, c.r), g: fx_mul(k, c.g), b: fx_mul(k, c.b) }
}

/// Full intensity on every channel.
pub open spec fn white_v() -> ColorV {
    ColorV { r: SCALE as int, g: SCALE as int, b: SCALE as int }
}

/// Half intensity on every channel.
pub open spec fn grey_v() -> ColorV {
    ColorV { r: SCALE as int / 2, g: SCALE as int / 2, b: SCALE as int / 2 }
}

/// No intensity on any channel.
pub open spec fn black_v() -> ColorV {
    ColorV { r: 0, g: 0, b: 0 }
}

/// An RGB intensity triple; channels are unbounded during computation and
/// clamped only at quantization.
#[derive(Clone, Copy, PartialEq, Eq, Structural, Debug)]
pub struct Color {
    pub r: Fx,
    pub g: Fx,
    pub b: Fx,
}

impl View for Color {
    type V = ColorV;

    open spec fn view(&self) -> ColorV {
        ColorV { r: self.r@, g: self.g@, b: self.b@ }
    }
}

impl Color {
    /// Assemble a color from its channels.
    pub fn new(r: Fx, g: Fx, b: Fx) -> (c: Color)
        ensures
            c@ == (ColorV { r: r@, g: g@, b: b@ }),
    {
        Color { r, g, b }
    }

    /// Channelwise addition.
    pub fn add(self, rhs: Color) -> (c: Color)
        ensures
            c@ == c_add(self@, rhs@),
    {
        Color { r: self.r.add(rhs.r), g: self.g.add(rhs.g), b: self.b.add(rhs.b) }
    }

    /// Channelwise multiplication.
    pub fn mul(self, rhs: Color) -> (c: Color)
        ensures
            c@ == c_mul(self@, rhs@),
    {
        Color { r: self.r.mul(rhs.r), g: self.g.mul(rhs.g), b: self.b.mul(rhs.b) }
    }

    /// Every channel scaled by `k`.
    pub fn scale(self, k: Fx) -> (c: Color)
        ensures
            c@ == c_scale(k@, self@),
    {
        Color { r: k.mul(self.r), g: k.mul(self.g), b: k.mul(self.b) }
    }

    /// Pure white.
    pub fn white() -> (c: Color)
        ensures
            c@ == white_v(),
    {
        Color { r: Fx { raw: SCALE }, g: Fx { raw: SCALE }, b: Fx { raw: SCALE } }
    }

    /// Half grey, the placeholder for reflections past the depth bound.
    pub fn grey() -> (c: Color)
        ensures
            c@ == grey_v(),
    {
        Color { r: Fx { raw: 32768 }, g: Fx { raw: 32768 }, b: Fx { raw: 32768 } }
    }

    /// Pure black.
    pub fn black() -> (c: Color)
        ensures
            c@ == black_v(),
    {
        Color { r: Fx { raw: 0 }, g: Fx { raw: 0 }, b: Fx { raw: 0 } }
    }

    /// The color of rays that hit nothing.
    pub fn background() -> (c: Color)
        ensures
            c@ == black_v(),
    {
        Color::black()
    }

    /// The contribution of a light that does not reach a surface.
    pub fn default_color() -> (c: Color)
        ensures
            c@ == black_v(),
    {
        Color::black()
    }
}

} // verus!
