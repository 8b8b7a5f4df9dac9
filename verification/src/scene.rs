//! Rays, lights, the camera, and the scene aggregate.

use vstd::prelude::*;
use crate::fx::Fx;
use crate::vec3::{Vec3, V3, v3_sub, v3_norm, v3_cross, v3_scale};
use crate::color::Color;
use crate::shapes::Thing;

verus! {

/// Raw fixed-point value of the camera's field-of-view factor, 1.5.
pub open spec fn fov_factor() -> int {
    98304
}

/// The fixed "world down" axis the camera basis is built against.
pub open spec fn cam_down() -> V3 {
    V3 { x: 0, y: -65536, z: 0 }
}

/// The camera's forward unit vector, from its position toward the
/// look-at target.
pub open spec fn cam_forward(pos: V3, look_at: V3) -> V3 {
    v3_norm(v3_sub(look_at, pos))
}

/// The camera's right basis vector, scaled by the field-of-view factor.
pub open spec fn cam_right(pos: V3, look_at: V3) -> V3 {
    v3_scale(fov_factor(), v3_norm(v3_cross(cam_forward(pos, look_at), cam_down())))
}

/// The camera's up basis vector, scaled by the field-of-view factor.
pub open spec fn cam_up(pos: V3, look_at: V3) -> V3 {
    v3_scale(
        fov_factor(),
        v3_norm(v3_cross(cam_forward(pos, look_at), cam_right(pos, look_at))),
    )
}

/// A ray: an origin and a direction.
#[derive(Clone, Copy, Debug)]
pub struct Ray {
    pub start: Vec3,
    pub dir: Vec3,
}

impl Ray {
    /// Assemble a ray.
    pub fn new(start: Vec3, dir: Vec3) -> (r: Ray)
        ensures
            r.start == start,
            r.dir == dir,
    {
        Ray { start, dir }
    }
}

/// A point light with an emission color.
#[derive(Clone, Copy, Debug)]
pub struct Light {
    pub pos: Vec3,
    pub col: Color,
}

impl Light {
    /// Assemble a light.
    pub fn new(pos: Vec3, col: Color) -> (l: Light)
        ensures
            l.pos == pos,
            l.col == col,
    {
        Light { pos, col }
    }
}

/// A camera: a position and a basis derived once from a look-at target.
#[derive(Clone, Copy, Debug)]
pub struct Camera {
    pub pos: Vec3,
    pub forward: Vec3,
    pub right: Vec3,
    pub up: Vec3,
}

impl Camera {
    /// Derive the camera basis from a position and a look-at target.
    pub fn new(pos: Vec3, look_at: Vec3) -> (c: Camera)
        ensures
            c.pos == pos,
            c.forward@ == cam_forward(pos@, look_at@),
            c.right@ == cam_right(pos@, look_at@),
            c.up@ == cam_up(pos@, look_at@),
    {
        let forward = look_at.sub(pos).norm();
        let down = Vec3 { x: Fx { raw: 0 }, y: Fx { raw: -65536 }, z: Fx { raw: 0 } };
        let fov = Fx { raw: 98304 };
        let right = forward.cross(down).norm().scale(fov);
        let up = forward.cross(right).norm().scale(fov);
        Camera { pos, forward, right, up }
    }
}

/// An immutable scene: a camera, primitives in order, and lights in order.
pub struct MyScene {
    pub camera: Camera,
    pub things: Vec<Thing>,
    pub lights: Vec<Light>,
}

impl MyScene {
    /// The scene's camera.
    pub fn camera(&self) -> (c: &Camera)
        ensures
            c == self.camera,
    {
        &self.camera
    }

    /// The scene's primitives, in their fixed order.
    pub fn things(&self) -> (t: &Vec<Thing>)
        ensures
            t == self.things,
    {
        &self.things
    }

    /// The scene's lights, in their fixed order.
    pub fn lights(&self) -> (l: &Vec<Light>)
        ensures
            l == self.lights,
    {
        &self.lights
    }
}

} // verus!
