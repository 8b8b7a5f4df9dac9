use ray_tracer::{
    Camera, Color, DynamicCanvas, Fx, Light, MyScene, MySurface, Ray, RayTracer, StaticCanvas,
    Thing, Vec3,
};

fn v(x: i64, y: i64, z: i64) -> Vec3 {
    Vec3::new(Fx::from_int(x), Fx::from_int(y), Fx::from_int(z))
}

fn vr(x: i64, y: i64, z: i64) -> Vec3 {
    Vec3::new(Fx::from_raw(x), Fx::from_raw(y), Fx::from_raw(z))
}

#[test]
fn shiny_surface_constants() {
    let s = MySurface::Shiny;
    let p = v(0, 0, 0);
    assert_eq!(s.diffuse(&p), Color::white());
    assert_eq!(s.specular(&p), Color::grey());
    assert_eq!(s.reflect(&p).raw(), 45875);
    assert_eq!(s.roughness(), 250);
}

#[test]
fn checkerboard_alternates_with_floor_parity() {
    let s = MySurface::Checkerboard;
    // floor(x) + floor(z) even: black
    assert_eq!(s.diffuse(&vr(32768, 0, 32768)), Color::black());
    // shift x by one whole unit: white
    assert_eq!(s.diffuse(&vr(98304, 0, 32768)), Color::white());
    // negative coordinates: floor(-0.5) == -1, so parity is odd
    assert_eq!(s.diffuse(&vr(-32768, 0, 32768)), Color::white());
    // reflectivity follows the same parity
    assert_eq!(s.reflect(&vr(32768, 0, 32768)).raw(), 45875);
    assert_eq!(s.reflect(&vr(98304, 0, 32768)).raw(), 6553);
    assert_eq!(s.roughness(), 150);
}

#[test]
fn sphere_center_ray_distance() {
    // center three units straight ahead, radius one: hit at 3 - 1 = 2
    let sphere = Thing::sphere(v(0, 0, -3), Fx::one(), MySurface::Shiny);
    let ray = Ray::new(v(0, 0, 0), vr(0, 0, -65536));
    let hit = sphere.intersect(&ray).expect("ray through center must hit");
    assert_eq!(hit.raw(), 2 * 65536);
}

#[test]
fn sphere_behind_origin_misses() {
    let sphere = Thing::sphere(v(0, 0, 3), Fx::one(), MySurface::Shiny);
    let ray = Ray::new(v(0, 0, 0), vr(0, 0, -65536));
    assert!(sphere.intersect(&ray).is_none());
}

#[test]
fn sphere_zero_distance_excluded() {
    // origin exactly on the surface, aimed at the center: distance would be 0
    let sphere = Thing::sphere(v(0, 0, -1), Fx::one(), MySurface::Shiny);
    let ray = Ray::new(v(0, 0, 0), vr(0, 0, -65536));
    assert!(sphere.intersect(&ray).is_none());
}

#[test]
fn plane_intersection_distance() {
    let plane = Thing::plane(vr(0, 65536, 0), Fx::zero(), MySurface::Checkerboard);
    let down = Ray::new(v(0, 2, 0), vr(0, -65536, 0));
    assert_eq!(plane.intersect(&down).expect("downward ray hits floor").raw(), 2 * 65536);
    let up = Ray::new(v(0, 2, 0), vr(0, 65536, 0));
    assert!(plane.intersect(&up).is_none());
    let parallel = Ray::new(v(0, 2, 0), vr(65536, 0, 0));
    assert!(plane.intersect(&parallel).is_none());
}

#[test]
fn plane_hit_point_satisfies_plane_equation() {
    let normal = vr(0, 65536, 0);
    let offset = Fx::zero();
    let plane = Thing::plane(normal, offset, MySurface::Checkerboard);
    let ray = Ray::new(v(3, 2, -1), vr(0, -65536, 0));
    let dist = plane.intersect(&ray).expect("downward ray hits floor");
    let pos = ray.dir.scale(dist).add(ray.start);
    assert_eq!(normal.dot(pos).add(offset).raw(), 0);
}

#[test]
fn plane_normal_ignores_position() {
    let normal = vr(0, 65536, 0);
    let plane = Thing::plane(normal, Fx::zero(), MySurface::Checkerboard);
    assert_eq!(plane.normal(&v(0, 0, 0)), normal);
    assert_eq!(plane.normal(&v(9, -4, 17)), normal);
}

#[test]
fn nearest_hit_prefers_first_on_ties() {
    let a = Thing::sphere(v(0, 0, -3), Fx::one(), MySurface::Shiny);
    let b = Thing::sphere(v(0, 0, -3), Fx::one(), MySurface::Checkerboard);
    let scene = MyScene {
        camera: Camera::new(v(0, 0, 0), v(0, 0, -1)),
        things: vec![a, b],
        lights: vec![],
    };
    let rt = RayTracer::new();
    let ray = Ray::new(v(0, 0, 0), vr(0, 0, -65536));
    let isect = rt.intersections(&ray, &scene).expect("both spheres are hit");
    assert_eq!(isect.thing, 0);
    assert_eq!(isect.dist.raw(), 2 * 65536);
}

#[test]
fn nearest_hit_skips_missed_primitives() {
    let behind = Thing::sphere(v(0, 0, 5), Fx::one(), MySurface::Shiny);
    let ahead = Thing::sphere(v(0, 0, -5), Fx::one(), MySurface::Shiny);
    let scene = MyScene {
        camera: Camera::new(v(0, 0, 0), v(0, 0, -1)),
        things: vec![behind, ahead],
        lights: vec![],
    };
    let rt = RayTracer::new();
    let ray = Ray::new(v(0, 0, 0), vr(0, 0, -65536));
    let isect = rt.intersections(&ray, &scene).expect("the forward sphere is hit");
    assert_eq!(isect.thing, 1);
    assert_eq!(isect.dist.raw(), 4 * 65536);
}

#[test]
fn missed_ray_returns_background() {
    let rt = RayTracer::new();
    let empty = MyScene {
        camera: Camera::new(v(0, 0, 0), v(0, 0, -1)),
        things: vec![],
        lights: vec![],
    };
    let ray = Ray::new(v(0, 0, 0), vr(0, 0, -65536));
    assert_eq!(rt.trace_ray(&ray, &empty, 0), Color::black());
    assert_eq!(rt.trace_ray(&ray, &empty, 7), Color::black());
    // a scene whose one sphere the ray misses behaves the same
    let miss = MyScene {
        camera: Camera::new(v(0, 0, 0), v(0, 0, -1)),
        things: vec![Thing::sphere(v(10, 0, 0), Fx::one(), MySurface::Shiny)],
        lights: vec![Light::new(v(0, 5, 0), Color::white())],
    };
    assert_eq!(rt.trace_ray(&ray, &miss, 0), Color::black());
}

#[test]
fn trace_is_stable_past_depth_bound() {
    // a reflective floor and sphere: past MAX_DEPTH the reflected term is
    // the flat grey placeholder, so deeper start depths change nothing
    let scene = MyScene {
        camera: Camera::new(v(0, 2, 4), v(0, 1, 0)),
        things: vec![
            Thing::plane(vr(0, 65536, 0), Fx::zero(), MySurface::Checkerboard),
            Thing::sphere(v(0, 1, 0), Fx::one(), MySurface::Shiny),
        ],
        lights: vec![Light::new(v(2, 4, 2), Color::white())],
    };
    let rt = RayTracer::new();
    let ray = Ray::new(v(0, 1, 4), vr(0, 0, -65536));
    let at_bound = rt.trace_ray(&ray, &scene, 5);
    assert_eq!(rt.trace_ray(&ray, &scene, 9), at_bound);
    assert_eq!(rt.trace_ray(&ray, &scene, i32::MAX), at_bound);
}

#[test]
fn blocked_light_contributes_exactly_nothing() {
    // hit point at the origin on the floor; a light straight above it and
    // a small sphere exactly between them
    let floor = Thing::plane(vr(0, 65536, 0), Fx::zero(), MySurface::Checkerboard);
    let blocker = Thing::sphere(v(0, 1, 0), Fx::from_ratio(1, 4), MySurface::Shiny);
    let light = Light::new(v(0, 2, 0), Color::white());
    let rt = RayTracer::new();
    let pos = v(0, 0, 0);
    let normal = vr(0, 65536, 0);
    let rd = vr(0, 65536, 0);
    let shadowed = MyScene {
        camera: Camera::new(v(0, 0, 4), v(0, 0, 0)),
        things: vec![floor, blocker],
        lights: vec![light],
    };
    let col = rt.add_light(0, &pos, &normal, &rd, &shadowed, &Color::black(), &light);
    assert_eq!(col, Color::black());
    let open = MyScene {
        camera: Camera::new(v(0, 0, 4), v(0, 0, 0)),
        things: vec![floor],
        lights: vec![light],
    };
    let lit = rt.add_light(0, &pos, &normal, &rd, &open, &Color::black(), &light);
    assert_eq!(lit, Color::white());
}

#[test]
fn other_lights_unaffected_by_shadow() {
    let floor = Thing::plane(vr(0, 65536, 0), Fx::zero(), MySurface::Checkerboard);
    let blocker = Thing::sphere(v(0, 1, 0), Fx::from_ratio(1, 4), MySurface::Shiny);
    let blocked_light = Light::new(v(0, 2, 0), Color::white());
    let free_light = Light::new(
        v(-2, 2, 0),
        Color::new(Fx::from_ratio(1, 4), Fx::from_ratio(1, 4), Fx::from_ratio(1, 4)),
    );
    let rt = RayTracer::new();
    let pos = v(0, 0, 0);
    let normal = vr(0, 65536, 0);
    let rd = vr(0, 65536, 0);
    let camera = Camera::new(v(0, 0, 4), v(0, 0, 0));
    let both = MyScene {
        camera,
        things: vec![floor, blocker],
        lights: vec![blocked_light, free_light],
    };
    let camera2 = Camera::new(v(0, 0, 4), v(0, 0, 0));
    let only_free = MyScene {
        camera: camera2,
        things: vec![floor, blocker],
        lights: vec![free_light],
    };
    let with_both = rt.natural_color(0, &pos, &normal, &rd, &both);
    let with_free = rt.natural_color(0, &pos, &normal, &rd, &only_free);
    assert_eq!(with_both, with_free);
}

fn spec_scene() -> MyScene {
    MyScene {
        camera: Camera::new(v(3, 2, 4), Vec3::new(Fx::from_int(-1), Fx::from_ratio(1, 2), Fx::zero())),
        things: vec![
            Thing::plane(vr(0, 65536, 0), Fx::zero(), MySurface::Checkerboard),
            Thing::sphere(
                Vec3::new(Fx::zero(), Fx::one(), Fx::from_ratio(-1, 4)),
                Fx::one(),
                MySurface::Shiny,
            ),
        ],
        lights: vec![Light::new(v(0, 4, 0), Color::white())],
    }
}

#[test]
fn four_by_four_render_is_deterministic() {
    let rt = RayTracer::new();
    let mut first = DynamicCanvas::new(4, 4);
    rt.render_rt(&spec_scene(), &mut first, 4, 4);
    let mut second = DynamicCanvas::new(4, 4);
    rt.render_rt(&spec_scene(), &mut second, 4, 4);
    let a = first.into_vec();
    let b = second.into_vec();
    assert_eq!(a.len(), 4 * 4 * 3);
    assert_eq!(a, b);
    // the frame is not all background
    assert!(a.iter().any(|&byte| byte != 0));
}

#[test]
fn static_and_dynamic_canvases_agree() {
    let rt = RayTracer::new();
    let mut dynamic = DynamicCanvas::new(4, 4);
    rt.render_rt(&spec_scene(), &mut dynamic, 4, 4);
    let mut fixed = StaticCanvas::new();
    rt.render_ct(&spec_scene(), &mut fixed, 4, 4);
    let d = dynamic.into_vec();
    let s = fixed.into_array();
    for y in 0..4usize {
        for x in 0..4usize {
            for k in 0..3usize {
                assert_eq!(d[(y * 4 + x) * 3 + k], s[(y * 512 + x) * 3 + k]);
            }
        }
    }
}

#[test]
fn camera_basis_from_look_at() {
    let cam = Camera::new(v(0, 0, 0), v(0, 0, -1));
    assert_eq!((cam.forward.x.raw(), cam.forward.y.raw(), cam.forward.z.raw()), (0, 0, -65536));
    assert_eq!((cam.right.x.raw(), cam.right.y.raw(), cam.right.z.raw()), (-98304, 0, 0));
    assert_eq!((cam.up.x.raw(), cam.up.y.raw(), cam.up.z.raw()), (0, 98302, 0));
}

#[test]
fn pixel_rays_flip_vertically() {
    // the ray through the top row bends up, through the bottom row down
    let rt = RayTracer::new();
    let cam = Camera::new(v(0, 0, 0), v(0, 0, -1));
    let top = rt.point(4, 4, 0, 0, &cam);
    let bottom = rt.point(4, 4, 0, 3, &cam);
    assert!(top.y.raw() > 0);
    assert!(bottom.y.raw() < 0);
}

#[test]
fn test_ray_reports_nearest_distance() {
    let rt = RayTracer::new();
    let scene = MyScene {
        camera: Camera::new(v(0, 0, 0), v(0, 0, -1)),
        things: vec![
            Thing::sphere(v(0, 0, -7), Fx::one(), MySurface::Shiny),
            Thing::sphere(v(0, 0, -3), Fx::one(), MySurface::Shiny),
        ],
        lights: vec![],
    };
    let ray = Ray::new(v(0, 0, 0), vr(0, 0, -65536));
    assert_eq!(rt.test_ray(&ray, &scene).expect("spheres ahead").raw(), 2 * 65536);
}
