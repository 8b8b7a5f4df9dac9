//! Geometric primitives and their ray intersection tests.

use vstd::prelude::*;
use crate::fx::{Fx, fx_add, fx_sub, fx_mul, fx_div, fx_sqrt};
use crate::vec3::{Vec3, V3, v3_sub, v3_dot, v3_norm};
use crate::scene::Ray;
use crate::surface::MySurface;

verus! {

/// Hit distance of a ray against a sphere.  A sphere whose center sits
/// behind the ray origin along the view direction reports no hit, and a
/// hit at distance exactly zero is excluded as degenerate.
pub open spec fn sphere_hit(s: Sphere, start: V3, dir: V3) -> Option<int> {
    let eo = v3_sub(s.centre@, start);
    let v = v3_dot(eo, dir);
    if v < 0 {
        None
    } else {
        let disc = fx_sub(s.radius2@, fx_sub(v3_dot(eo, eo), fx_mul(v, v)));
        if disc < 0 {
            None
        } else {
            let dist = fx_sub(v, fx_sqrt(disc));
            if dist == 0 {
                None
            } else {
                Some(dist)
            }
        }
    }
}

/// Hit distance of a ray against a plane.  Rays moving away from or
/// parallel to the plane's front face report no hit.
pub open spec fn plane_hit(p: Plane, start: V3, dir: V3) -> Option<int> {
    let denom = v3_dot(p.norm@, dir);
    if denom >= 0 {
        None
    } else {
        Some(fx_div(fx_add(v3_dot(p.norm@, start), p.offset@), -denom))
    }
}

/// Hit distance of a ray against either primitive.
pub open spec fn thing_hit(t: Thing, start: V3, dir: V3) -> Option<int> {
    match t {
        Thing::Sphere(s) => sphere_hit(s, start, dir),
        Thing::Plane(p) => plane_hit(p, start, dir),
    }
}

/// Surface normal of a primitive at a position on it.
pub open spec fn thing_normal(t: Thing, pos: V3) -> V3 {
    match t {
        Thing::Sphere(s) => v3_norm(v3_sub(pos, s.centre@)),
        Thing::Plane(p) => p.norm@,
    }
}

/// Material of a primitive.
pub open spec fn thing_surface(t: Thing) -> MySurface {
    match t {
        Thing::Sphere(s) => s.surface,
        Thing::Plane(p) => p.surface,
    }
}

/// A sphere, stored with its radius already squared.
#[derive(Clone, Copy, Debug)]
pub struct Sphere {
    pub centre: Vec3,
    pub radius2: Fx,
    pub surface: MySurface,
}

impl Sphere {
    /// Hit distance of a ray against this sphere.
    pub fn intersect(&self, ray: &Ray) -> (r: Option<Fx>)
        ensures
            r matches Some(d) ==> sphere_hit(*self, ray.start@, ray.dir@) == Some(d@),
            r is None ==> sphere_hit(*self, ray.start@, ray.dir@) is None,
    {
        let eo = self.centre.sub(ray.start);
        let v = eo.dot(ray.dir);
        if v.raw < 0 {
            None
        } else {
            let disc = self.radius2.sub(eo.dot(eo).sub(v.mul(v)));
            if disc.raw < 0 {
                None
            } else {
                let dist = v.sub(disc.sqrt());
                if dist.raw == 0 {
                    None
                } else {
                    Some(dist)
                }
            }
        }
    }

    /// Unit normal pointing from the center through `pos`.
    pub fn normal(&self, pos: &Vec3) -> (n: Vec3)
        ensures
            n@ == v3_norm(v3_sub(pos@, self.centre@)),
    {
        pos.sub(self.centre).norm()
    }

    /// This sphere's material.
    pub fn surface(&self) -> (s: &MySurface)
        ensures
            s == self.surface,
    {
        &self.surface
    }
}

/// A plane given by a unit normal and its signed offset from the origin.
#[derive(Clone, Copy, Debug)]
pub struct Plane {
    pub norm: Vec3,
    pub offset: Fx,
    pub surface: MySurface,
}

impl Plane {
    /// Hit distance of a ray against this plane.
    pub fn intersect(&self, ray: &Ray) -> (r: Option<Fx>)
        ensures
            r matches Some(d) ==> plane_hit(*self, ray.start@, ray.dir@) == Some(d@),
            r is None ==> plane_hit(*self, ray.start@, ray.dir@) is None,
    {
        let denom = self.norm.dot(ray.dir);
        if denom.raw >= 0 {
            None
        } else {
            let num = self.norm.dot(ray.start).add(self.offset);
            Some(num.div_by_neg(denom))
        }
    }

    /// The plane's fixed normal, whatever the position.
    pub fn normal(&self, _pos: &Vec3) -> (n: Vec3)
        ensures
            n@ == self.norm@,
    {
        self.norm
    }

    /// This plane's material.
    pub fn surface(&self) -> (s: &MySurface)
        ensures
            s == self.surface,
    {
        &self.surface
    }
}

/// The closed set of primitives a scene can hold.
#[derive(Clone, Copy, Debug)]
pub enum Thing {
    Sphere(Sphere),
    Plane(Plane),
}

impl Thing {
    /// A sphere primitive; the radius is squared once here.
    pub fn sphere(centre: Vec3, radius: Fx, surface: MySurface) -> (t: Thing)
        ensures
            t matches Thing::Sphere(s) && s.centre == centre && s.radius2@ == fx_mul(
                radius@,
                radius@,
            ) && s.surface == surface,
    {
        Thing::Sphere(Sphere { centre, radius2: radius.mul(radius), surface })
    }

    /// A plane primitive.
    pub fn plane(norm: Vec3, offset: Fx, surface: MySurface) -> (t: Thing)
        ensures
            t matches Thing::Plane(p) && p.norm == norm && p.offset == offset && p.surface
                == surface,
    {
        Thing::Plane(Plane { norm, offset, surface })
    }

    /// Hit distance of a ray against this primitive.
    pub fn intersect(&self, ray: &Ray) -> (r: Option<Fx>)
        ensures
            r matches Some(d) ==> thing_hit(*self, ray.start@, ray.dir@) == Some(d@),
            r is None ==> thing_hit(*self, ray.start@, ray.dir@) is None,
    {
        match self {
            Thing::Sphere(s) => s.intersect(ray),
            Thing::Plane(p) => p.intersect(ray),
        }
    }

    /// Surface normal at a position.
    pub fn normal(&self, pos: &Vec3) -> (n: Vec3)
        ensures
            n@ == thing_normal(*self, pos@),
    {
        match self {
            Thing::Sphere(s) => s.normal(pos),
            Thing::Plane(p) => p.normal(pos),
        }
    }

    /// Material of this primitive.
    pub fn surface(&self) -> (s: &MySurface)
        ensures
            s == thing_surface(*self),
    {
        match self {
            Thing::Sphere(s) => s.surface(),
            Thing::Plane(p) => p.surface(),
        }
    }
}

} // verus!
