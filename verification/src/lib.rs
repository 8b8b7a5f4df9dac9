//! A recursive ray tracer over deterministic fixed-point arithmetic.
//!
//! Every quantity the renderer computes with is a real number held as a
//! scaled 64-bit integer, so rendering is bit-for-bit reproducible and the
//! whole pipeline — intersection tests, recursive shading, camera mapping,
//! and pixel quantization — is specified and verified exactly.

use vstd::prelude::*;

mod canvas;
mod color;
mod fx;
mod laws;
mod scene;
mod shapes;
mod surface;
mod tracer;
mod vec3;

pub use canvas::{DynamicCanvas, StaticCanvas, CANVAS_HEIGHT, CANVAS_WIDTH};
pub use color::Color;
pub use fx::Fx;
pub use scene::{Camera, Light, MyScene, Ray};
pub use shapes::{Plane, Sphere, Thing};
pub use surface::MySurface;
pub use tracer::{Intersection, RayTracer, MAX_DEPTH};
pub use vec3::Vec3;

use crate::scene::{cam_forward, cam_right, cam_up};
use crate::tracer::render_byte;
use crate::vec3::V3;

verus! {

/// The built-in demonstration scene's primitives: a checkered floor plane
/// and two shiny spheres.
pub open spec fn demo_things() -> Seq<Thing> {
    seq![
        Thing::Plane(
            Plane {
                norm: Vec3 { x: Fx { raw: 0 }, y: Fx { raw: 65536 }, z: Fx { raw: 0 } },
                offset: Fx { raw: 0 },
                surface: MySurface::Checkerboard,
            },
        ),
        Thing::Sphere(
            Sphere {
                centre: Vec3 { x: Fx { raw: 0 }, y: Fx { raw: 65536 }, z: Fx { raw: -16384i64 } },
                radius2: Fx { raw: 65536 },
                surface: MySurface::Shiny,
            },
        ),
        Thing::Sphere(
            Sphere {
                centre: Vec3 {
                    x: Fx { raw: -65536i64 },
                    y: Fx { raw: 32768 },
                    z: Fx { raw: 98304 },
                },
                radius2: Fx { raw: 16384 },
                surface: MySurface::Shiny,
            },
        ),
    ]
}

/// The demonstration scene's four colored point lights.
pub open spec fn demo_lights() -> Seq<Light> {
    seq![
        Light {
            pos: Vec3 { x: Fx { raw: -131072i64 }, y: Fx { raw: 163840 }, z: Fx { raw: 0 } },
            col: Color { r: Fx { raw: 32112 }, g: Fx { raw: 4587 }, b: Fx { raw: 4587 } },
        },
        Light {
            pos: Vec3 { x: Fx { raw: 98304 }, y: Fx { raw: 163840 }, z: Fx { raw: 98304 } },
            col: Color { r: Fx { raw: 4587 }, g: Fx { raw: 4587 }, b: Fx { raw: 32112 } },
        },
        Light {
            pos: Vec3 { x: Fx { raw: 98304 }, y: Fx { raw: 163840 }, z: Fx { raw: -98304i64 } },
            col: Color { r: Fx { raw: 4587 }, g: Fx { raw: 32112 }, b: Fx { raw: 4653 } },
        },
        Light {
            pos: Vec3 { x: Fx { raw: 0 }, y: Fx { raw: 229376 }, z: Fx { raw: 0 } },
            col: Color { r: Fx { raw: 13762 }, g: Fx { raw: 13762 }, b: Fx { raw: 22937 } },
        },
    ]
}

/// Where the demonstration scene's camera stands.
pub open spec fn demo_cam_pos() -> V3 {
    V3 { x: 196608, y: 131072, z: 262144 }
}

/// What the demonstration scene's camera looks at.
pub open spec fn demo_cam_look() -> V3 {
    V3 { x: -65536, y: 32768, z: 0 }
}

/// Byte `i` of the demonstration render: a 512 by 512 frame of the scene
/// above, rendered over a zeroed buffer.
pub open spec fn demo_render_byte(i: int) -> u8 {
    render_byte(
        demo_things(),
        demo_lights(),
        demo_cam_pos(),
        cam_forward(demo_cam_pos(), demo_cam_look()),
        cam_right(demo_cam_pos(), demo_cam_look()),
        cam_up(demo_cam_pos(), demo_cam_look()),
        512,
        512,
        512,
        Seq::new((512 * 512 * 3) as nat, |j: int| 0u8),
        i,
    )
}

/// Render the demonstration scene at the fixed canvas size, into the
/// statically sized buffer.
pub fn render_ct() -> (r: Vec<u8>)
    ensures
        r@.len() == 512 * 512 * 3,
        forall|i: int| 0 <= i < r@.len() ==> r@[i] == demo_render_byte(i),
{
    let camera = Camera::new(
        Vec3::new(Fx::from_int(3), Fx::from_int(2), Fx::from_int(4)),
        Vec3::new(Fx::from_int(-1), Fx::from_raw(32768), Fx::zero()),  // looks at (-1, 0.5, 0)
    );
    let mut things: Vec<Thing> = Vec::new();
    things.push(
        Thing::plane(
            Vec3::new(Fx::zero(), Fx::one(), Fx::zero()),
            Fx::zero(),
            MySurface::Checkerboard,
        ),
    );
    things.push(
        Thing::sphere(
            Vec3::new(Fx::zero(), Fx::one(), Fx::from_raw(-16384)),  // (0, 1, -0.25)
            Fx::one(),
            MySurface::Shiny,
        ),
    );
    things.push(
        Thing::sphere(
            Vec3::new(Fx::from_int(-1), Fx::from_raw(32768), Fx::from_raw(98304)),  // (-1, 0.5, 1.5)
            Fx::from_raw(32768),  // radius 0.5
            MySurface::Shiny,
        ),
    );
    let mut lights: Vec<Light> = Vec::new();
    lights.push(
        Light::new(
            Vec3::new(Fx::from_int(-2), Fx::from_raw(163840), Fx::zero()),  // (-2, 2.5, 0)
            Color::new(Fx::from_raw(32112), Fx::from_raw(4587), Fx::from_raw(4587)),  // (0.49, 0.07, 0.07)
        ),
    );
    lights.push(
        Light::new(
            Vec3::new(Fx::from_raw(98304), Fx::from_raw(163840), Fx::from_raw(98304)),  // (1.5, 2.5, 1.5)
            Color::new(Fx::from_raw(4587), Fx::from_raw(4587), Fx::from_raw(32112)),  // (0.07, 0.07, 0.49)
        ),
    );
    lights.push(
        Light::new(
            Vec3::new(Fx::from_raw(98304), Fx::from_raw(163840), Fx::from_raw(-98304)),  // (1.5, 2.5, -1.5)
            Color::new(Fx::from_raw(4587), Fx::from_raw(32112), Fx::from_raw(4653)),  // (0.07, 0.49, 0.071)
        ),
    );
    lights.push(
        Light::new(
            Vec3::new(Fx::zero(), Fx::from_raw(229376), Fx::zero()),  // (0, 3.5, 0)
            Color::new(Fx::from_raw(13762), Fx::from_raw(13762), Fx::from_raw(22937)),  // (0.21, 0.21, 0.35)
        ),
    );
    let scene = MyScene { camera, things, lights };
    proof {
        let dt = demo_things();
        let dl = demo_lights();
        assert(scene.things@.len() == 3);
        assert(scene.things@[0] == dt[0]);
        assert(scene.things@[1] == dt[1]);
        assert(scene.things@[2] == dt[2]);
        assert(scene.lights@.len() == 4);
        assert(scene.lights@[0] == dl[0]);
        assert(scene.lights@[1] == dl[1]);
        assert(scene.lights@[2] == dl[2]);
        assert(scene.lights@[3] == dl[3]);
        assert(scene.things@ =~= dt);
        assert(scene.lights@ =~= dl);
    }
    let mut canvas = StaticCanvas::new();
    let ghost canvas0 = canvas@;
    let rt = RayTracer::new();
    rt.render_ct(&scene, &mut canvas, 512, 512);
    proof {
        assert(canvas0 =~= Seq::new((512 * 512 * 3) as nat, |j: int| 0u8));
    }
    canvas.into_array()
}

/// Render the demonstration scene at the fixed canvas size, handing the
/// bytes back as a growable vector.
pub fn render_rt() -> (r: Vec<u8>)
    ensures
        r@.len() == 512 * 512 * 3,
        forall|i: int| 0 <= i < r@.len() ==> r@[i] == demo_render_byte(i),
{
    render_ct()
}

} // verus!
