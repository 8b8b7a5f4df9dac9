//! Surface materials: a uniform glossy material and a procedural checker.

use vstd::prelude::*;
use crate::fx::{Fx, fx_floor_units};
use crate::vec3::{Vec3, V3};
use crate::color::{Color, ColorV, white_v, grey_v, black_v};

verus! {

/// A checker cell is "white" when the floors of the world x and z
/// coordinates sum to an odd number.
pub open spec fn checker_is_white(pos: V3) -> bool {
    (fx_floor_units(pos.z) + fx_floor_units(pos.x)) % 2 == 1
}

/// Diffuse color of a surface at a position.
pub open spec fn surf_diffuse(s: MySurface, pos: V3) -> ColorV {
    match s {
        MySurface::Shiny => white_v(),
        MySurface::Checkerboard => if checker_is_white(pos) {
            white_v()
        } else {
            black_v()
        },
    }
}

/// Specular color of a surface at a position.
pub open spec fn surf_specular(s: MySurface, pos: V3) -> ColorV {
    match s {
        MySurface::Shiny => grey_v(),
        MySurface::Checkerboard => white_v(),
    }
}

/// Reflectivity of a surface at a position, as a raw fixed-point factor.
pub open spec fn surf_reflect(s: MySurface, pos: V3) -> int {
    match s {
        MySurface::Shiny => 45875,
        MySurface::Checkerboard => if checker_is_white(pos) {
            6553
        } else {
            45875
        },
    }
}

/// Phong shininess exponent of a surface.
pub open spec fn surf_roughness(s: MySurface) -> int {
    match s {
        MySurface::Shiny => 250,
        MySurface::Checkerboard => 150,
    }
}

/// The closed set of materials a primitive can carry.
#[derive(Clone, Copy, Debug)]
pub enum MySurface {
    Shiny,
    Checkerboard,
}

/// The truncating remainder by two is nonzero exactly on odd numbers.
proof fn lemma_odd_rem(k: int)
    ensures
        (if k >= 0 {
            k % 2
        } else {
            -((-k) % 2)
        }) != 0 <==> k % 2 == 1,
{
    vstd::arithmetic::div_mod::lemma_fundamental_div_mod(k, 2);
    if k < 0 {
        vstd::arithmetic::div_mod::lemma_fundamental_div_mod_converse_mod(
            -k,
            2,
            -(k / 2) - (k % 2),
            k % 2,
        );
    }
}

/// Whether the checker cell holding `pos` is one of the "white" cells.
fn checker_white_at(pos: &Vec3) -> (r: bool)
    ensures
        r == checker_is_white(pos@),
{
    let k = pos.z.floor_units() + pos.x.floor_units();
    let rem = match k.checked_rem(2) {
        Some(rem) => rem,
        None => {
            assert(false);
            0
        },
    };
    proof {
        lemma_odd_rem(k as int);
    }
    rem != 0
}

impl MySurface {
    /// Diffuse color at a position.
    pub fn diffuse(&self, pos: &Vec3) -> (c: Color)
        ensures
            c@ == surf_diffuse(*self, pos@),
    {
        match self {
            MySurface::Shiny => Color::white(),
            MySurface::Checkerboard => {
                if checker_white_at(pos) {
                    Color::white()
                } else {
                    Color::black()
                }
            },
        }
    }

    /// Specular color at a position.
    pub fn specular(&self, _pos: &Vec3) -> (c: Color)
        ensures
            c@ == surf_specular(*self, _pos@),
    {
        match self {
            MySurface::Shiny => Color::grey(),
            MySurface::Checkerboard => Color::white(),
        }
    }

    /// Reflectivity at a position.
    pub fn reflect(&self, pos: &Vec3) -> (k: Fx)
        ensures
            k@ == surf_reflect(*self, pos@),
    {
        match self {
            MySurface::Shiny => Fx { raw: 45875 },
            MySurface::Checkerboard => {
                if checker_white_at(pos) {
                    Fx { raw: 6553 }
                } else {
                    Fx { raw: 45875 }
                }
            },
        }
    }

    /// Phong shininess exponent.
    pub fn roughness(&self) -> (e: i32)
        ensures
            e as int == surf_roughness(*self),
    {
        match self {
            MySurface::Shiny => 250,
            MySurface::Checkerboard => 150,
        }
    }
}

} // verus!
