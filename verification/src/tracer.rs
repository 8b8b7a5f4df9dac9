//! The rendering engine: nearest-hit selection, the recursive shading
//! model, and the camera's pixel-to-ray mapping.

use vstd::prelude::*;
use crate::fx::{Fx, clip, fx_sub, fx_div, fx_neg, fx_pow};
use crate::vec3::{Vec3, V3, v3_add, v3_sub, v3_scale, v3_dot, v3_norm, v3_mag};
use crate::color::{Color, ColorV, c_add, c_mul, c_scale, black_v, grey_v};
use crate::shapes::{Thing, thing_hit, thing_normal, thing_surface};
use crate::surface::{surf_diffuse, surf_specular, surf_reflect, surf_roughness};
use crate::scene::{Ray, Light, Camera, MyScene};
use crate::canvas::{StaticCanvas, DynamicCanvas, put_pixel, quant, CANVAS_WIDTH, CANVAS_HEIGHT};

verus! {

/// Reflection bounces are cut off at this depth.
pub const MAX_DEPTH: i32 = 5;

/// Mathematical model of a nearest hit: the index of the primitive hit
/// and the raw distance along the ray.
pub struct HitV {
    pub idx: int,
    pub dist: int,
}

/// Nearest hit among the first `n` primitives: the minimum positive hit
/// distance, with ties kept by the earliest primitive in scene order.
pub open spec fn nearest_hit_upto(things: Seq<Thing>, start: V3, dir: V3, n: int) -> Option<
    HitV,
>
    decreases n,
{
    if n <= 0 {
        None
    } else {
        let prev = nearest_hit_upto(things, start, dir, n - 1);
        match thing_hit(things[n - 1], start, dir) {
            Some(d) => {
                if d > 0 && (match prev {
                    Some(p) => d < p.dist,
                    None => true,
                }) {
                    Some(HitV { idx: n - 1, dist: d })
                } else {
                    prev
                }
            },
            None => prev,
        }
    }
}

/// Nearest hit among all primitives of the scene.
pub open spec fn nearest_hit(things: Seq<Thing>, start: V3, dir: V3) -> Option<HitV> {
    nearest_hit_upto(things, start, dir, things.len() as int)
}

/// Remaining reflection bounces at a recursion depth.
pub open spec fn depth_fuel(depth: int) -> int {
    if depth >= MAX_DEPTH as int {
        0
    } else {
        MAX_DEPTH as int - depth
    }
}

/// Color carried back by a ray: black where it misses everything, the
/// shade of the nearest hit otherwise.
pub open spec fn trace_v(
    things: Seq<Thing>,
    lights: Seq<Light>,
    start: V3,
    dir: V3,
    depth: int,
) -> ColorV
    decreases depth_fuel(depth), 2int,
{
    match nearest_hit(things, start, dir) {
        None => black_v(),
        Some(h) => shade_v(things, lights, start, dir, h.dist, h.idx, depth),
    }
}

/// Shade of a hit: direct illumination from every light plus either a
/// recursive reflection or, past the depth bound, a flat grey placeholder.
pub open spec fn shade_v(
    things: Seq<Thing>,
    lights: Seq<Light>,
    start: V3,
    dir: V3,
    dist: int,
    tidx: int,
    depth: int,
) -> ColorV
    decreases depth_fuel(depth), 1int,
{
    let pos = v3_add(v3_scale(dist, dir), start);
    let normal = thing_normal(things[tidx], pos);
    let reflect_dir = v3_sub(dir, v3_scale(131072, v3_scale(v3_dot(normal, dir), normal)));
    let natural = c_add(
        black_v(),
        natural_color_v(things, lights, tidx, pos, normal, reflect_dir, lights.len() as int),
    );
    let reflected = if depth >= MAX_DEPTH as int {
        grey_v()
    } else {
        reflection_v(things, lights, tidx, pos, reflect_dir, depth)
    };
    c_add(natural, reflected)
}

/// Color returned along the mirror direction, scaled by the surface's
/// reflectivity at the hit position.
pub open spec fn reflection_v(
    things: Seq<Thing>,
    lights: Seq<Light>,
    tidx: int,
    pos: V3,
    rd: V3,
    depth: int,
) -> ColorV
    decreases depth_fuel(depth), 0int,
{
    if depth >= MAX_DEPTH as int {
        black_v()
    } else {
        c_scale(
            surf_reflect(thing_surface(things[tidx]), pos),
            trace_v(things, lights, pos, rd, depth + 1),
        )
    }
}

/// Whether any primitive blocks the path from `pos` to the light: a hit
/// along the shadow ray strictly nearer than the light itself.
pub open spec fn light_blocked(things: Seq<Thing>, pos: V3, light: Light) -> bool {
    let ldis = v3_sub(light.pos@, pos);
    let livec = v3_norm(ldis);
    match nearest_hit(things, pos, livec) {
        Some(h) => h.dist < v3_mag(ldis),
        None => false,
    }
}

/// Direct contribution of one unobstructed light at a hit position: a
/// Lambertian diffuse term plus a Phong specular term, each modulated by
/// the surface's own colors.
pub open spec fn light_contrib_v(
    things: Seq<Thing>,
    tidx: int,
    pos: V3,
    normal: V3,
    rd: V3,
    light: Light,
) -> ColorV {
    let ldis = v3_sub(light.pos@, pos);
    let livec = v3_norm(ldis);
    let illum = v3_dot(livec, normal);
    let lcolor = if illum > 0 {
        c_scale(illum, light.col@)
    } else {
        black_v()
    };
    let specular = v3_dot(livec, v3_norm(rd));
    let surf = thing_surface(things[tidx]);
    let scolor = if specular > 0 {
        c_scale(fx_pow(specular, surf_roughness(surf)), light.col@)
    } else {
        black_v()
    };
    c_add(c_mul(surf_diffuse(surf, pos), lcolor), c_mul(surf_specular(surf, pos), scolor))
}

/// Accumulated color after one light: unchanged where the light is
/// shadowed, otherwise the accumulator plus the light's contribution.
pub open spec fn add_light_v(
    things: Seq<Thing>,
    tidx: int,
    pos: V3,
    normal: V3,
    rd: V3,
    col: ColorV,
    light: Light,
) -> ColorV {
    if light_blocked(things, pos, light) {
        col
    } else {
        c_add(col, light_contrib_v(things, tidx, pos, normal, rd, light))
    }
}

/// Direct illumination accumulated over the first `n` lights in scene
/// order, starting from black.
pub open spec fn natural_color_v(
    things: Seq<Thing>,
    lights: Seq<Light>,
    tidx: int,
    pos: V3,
    normal: V3,
    rd: V3,
    n: int,
) -> ColorV
    decreases n,
{
    if n <= 0 {
        black_v()
    } else {
        add_light_v(
            things,
            tidx,
            pos,
            normal,
            rd,
            natural_color_v(things, lights, tidx, pos, normal, rd, n - 1),
            lights[n - 1],
        )
    }
}

/// Raw fixed-point value of a whole number.
pub open spec fn from_int_v(v: int) -> int {
    clip(v * 65536)
}

/// Direction of the ray through pixel `(x, y)` of a `width` by `height`
/// viewport: the camera's forward vector nudged by the recentered pixel
/// coordinates along the right and up basis vectors, normalized.  Pixel
/// rows run top to bottom, so `y` enters negated.
pub open spec fn point_dir(
    width: int,
    height: int,
    x: int,
    y: int,
    forward: V3,
    right: V3,
    up: V3,
) -> V3 {
    let fw = from_int_v(width);
    let fh = from_int_v(height);
    let px = from_int_v(x);
    let py = from_int_v(y);
    let two = 131072;
    let rx = fx_div(fx_div(fx_sub(px, fx_div(fw, two)), two), fw);
    let ry = fx_div(fx_div(fx_neg(fx_sub(py, fx_div(fh, two))), two), fh);
    v3_norm(v3_add(forward, v3_add(v3_scale(rx, right), v3_scale(ry, up))))
}

/// One channel of a color, by byte offset within a pixel.
pub open spec fn channel(c: ColorV, k: int) -> int {
    if k == 0 {
        c.r
    } else if k == 1 {
        c.g
    } else {
        c.b
    }
}

/// The traced color of pixel `(x, y)`: a depth-zero trace from the
/// camera position along that pixel's ray.
#[verifier::opaque]
pub open spec fn pixel_color(
    things: Seq<Thing>,
    lights: Seq<Light>,
    campos: V3,
    forward: V3,
    right: V3,
    up: V3,
    width: int,
    height: int,
    x: int,
    y: int,
) -> ColorV {
    trace_v(things, lights, campos, point_dir(width, height, x, y, forward, right, up), 0)
}

/// Byte `i` of a `cw`-pixel-wide buffer after the render loop has
/// finished every pixel before `(xx, yy)` in row-major order: a
/// quantized channel where the byte's pixel is already rendered, the
/// original byte everywhere else.
pub open spec fn render_byte_upto(
    things: Seq<Thing>,
    lights: Seq<Light>,
    campos: V3,
    forward: V3,
    right: V3,
    up: V3,
    width: int,
    height: int,
    cw: int,
    oldb: Seq<u8>,
    i: int,
    xx: int,
    yy: int,
) -> u8 {
    let p = i / 3;
    let k = i % 3;
    let x = p % cw;
    let y = p / cw;
    if x < width && (y < yy || (y == yy && x < xx)) {
        quant(
            channel(
                pixel_color(things, lights, campos, forward, right, up, width, height, x, y),
                k,
            ),
        ) as u8
    } else {
        oldb[i]
    }
}

/// Byte `i` of a `cw`-pixel-wide buffer after a full `width` by `height`
/// render.
pub open spec fn render_byte(
    things: Seq<Thing>,
    lights: Seq<Light>,
    campos: V3,
    forward: V3,
    right: V3,
    up: V3,
    width: int,
    height: int,
    cw: int,
    oldb: Seq<u8>,
    i: int,
) -> u8 {
    render_byte_upto(
        things,
        lights,
        campos,
        forward,
        right,
        up,
        width,
        height,
        cw,
        oldb,
        i,
        0,
        height,
    )
}

/// A nonnegative integer splits uniquely over a positive divisor.
proof fn lemma_decomp(i: int, d: int)
    requires
        0 <= i,
        0 < d,
    ensures
        i == d * (i / d) + i % d,
        0 <= i % d < d,
        0 <= i / d,
{
    vstd::arithmetic::div_mod::lemma_fundamental_div_mod(i, d);
    vstd::arithmetic::div_mod::lemma_mod_division_less_than_divisor(i, d);
    vstd::arithmetic::div_mod::lemma_div_pos_is_pos(i, d);
}

/// The flat offsets of pixel `(x, y)`'s channels decompose back to that
/// pixel and channel.
proof fn lemma_pix_index(cw: int, x: int, y: int, k: int)
    requires
        0 < cw,
        0 <= x < cw,
        0 <= y,
        0 <= k < 3,
    ensures
        ((y * cw + x) * 3 + k) / 3 == y * cw + x,
        ((y * cw + x) * 3 + k) % 3 == k,
        (y * cw + x) % cw == x,
        (y * cw + x) / cw == y,
{
    assert(y * cw + x >= 0) by (nonlinear_arith)
        requires
            0 <= x,
            0 <= y,
            0 < cw,
    ;
    let p = y * cw + x;
    vstd::arithmetic::div_mod::lemma_fundamental_div_mod_converse_div(p * 3 + k, 3, p, k);
    vstd::arithmetic::div_mod::lemma_fundamental_div_mod_converse_mod(p * 3 + k, 3, p, k);
    vstd::arithmetic::div_mod::lemma_fundamental_div_mod_converse_div(p, cw, y, x);
    vstd::arithmetic::div_mod::lemma_fundamental_div_mod_converse_mod(p, cw, y, x);
}

/// The nearest hit a ray found: its distance and the index of the
/// primitive hit in the scene's primitive order.
#[derive(Clone, Copy, Debug)]
pub struct Intersection {
    pub ray: Ray,
    pub dist: Fx,
    pub thing: usize,
}

/// The rendering engine; it holds no state of its own.
pub struct RayTracer;

impl RayTracer {
    /// A renderer.
    pub fn new() -> (r: RayTracer) {
        RayTracer
    }

    /// Scan every primitive and keep the nearest positive hit; earlier
    /// primitives win ties.
    pub fn intersections(&self, ray: &Ray, scene: &MyScene) -> (r: Option<Intersection>)
        ensures
            match r {
                Some(i) => nearest_hit(scene.things@, ray.start@, ray.dir@) == Some(
                    HitV { idx: i.thing as int, dist: i.dist@ },
                ) && i.ray == *ray && i.thing < scene.things@.len(),
                None => nearest_hit(scene.things@, ray.start@, ray.dir@) is None,
            },
    {
        let mut closest: Option<Intersection> = None;
        let mut i: usize = 0;
        let n = scene.things().len();
        while i < n
            invariant
                i <= n == scene.things@.len(),
                match closest {
                    Some(c) => nearest_hit_upto(scene.things@, ray.start@, ray.dir@, i as int)
                        == Some(HitV { idx: c.thing as int, dist: c.dist@ }) && c.ray == *ray
                        && c.thing < i,
                    None => nearest_hit_upto(scene.things@, ray.start@, ray.dir@, i as int)
                        is None,
                },
            decreases n - i,
        {
            let thing = &scene.things()[i];
            match thing.intersect(ray) {
                Some(d) => {
                    if d.raw > 0 {
                        let better = match &closest {
                            Some(c) => d.raw < c.dist.raw,
                            None => true,
                        };
                        if better {
                            closest = Some(Intersection { ray: *ray, dist: d, thing: i });
                        }
                    }
                },
                None => {},
            }
            i = i + 1;
        }
        closest
    }

    /// Distance to the nearest positive hit, if any.
    pub fn test_ray(&self, ray: &Ray, scene: &MyScene) -> (r: Option<Fx>)
        ensures
            match r {
                Some(d) => nearest_hit(scene.things@, ray.start@, ray.dir@) matches Some(h)
                    && h.dist == d@,
                None => nearest_hit(scene.things@, ray.start@, ray.dir@) is None,
            },
    {
        match self.intersections(ray, scene) {
            Some(isect) => Some(isect.dist),
            None => None,
        }
    }

    /// Trace one ray against the scene: the background color on a miss,
    /// the recursive shade of the nearest hit otherwise.
    pub fn trace_ray(&self, ray: &Ray, scene: &MyScene, depth: i32) -> (c: Color)
        ensures
            c@ == trace_v(scene.things@, scene.lights@, ray.start@, ray.dir@, depth as int),
        decreases depth_fuel(depth as int), 2int,
    {
        match self.intersections(ray, scene) {
            Some(isect) => self.shade(&isect, scene, depth),
            None => Color::background(),
        }
    }

    /// Shade one intersection: natural (direct) light plus the reflected
    /// term, which past the depth bound degrades to flat grey.
    pub fn shade(&self, isect: &Intersection, scene: &MyScene, depth: i32) -> (c: Color)
        requires
            isect.thing < scene.things@.len(),
        ensures
            c@ == shade_v(
                scene.things@,
                scene.lights@,
                isect.ray.start@,
                isect.ray.dir@,
                isect.dist@,
                isect.thing as int,
                depth as int,
            ),
        decreases depth_fuel(depth as int), 1int,
    {
        let d = isect.ray.dir;
        let pos = d.scale(isect.dist).add(isect.ray.start);
        let normal = scene.things()[isect.thing].normal(&pos);
        let reflect_dir = d.sub(normal.scale(normal.dot(d)).scale(Fx { raw: 131072 }));
        let natural = Color::background().add(
            self.natural_color(isect.thing, &pos, &normal, &reflect_dir, scene),
        );
        let reflected = if depth >= MAX_DEPTH {
            Color::grey()
        } else {
            self.reflection_color(isect.thing, &pos, &reflect_dir, scene, depth)
        };
        natural.add(reflected)
    }

    /// Color arriving along the mirror direction, scaled by the
    /// surface's reflectivity.
    pub fn reflection_color(
        &self,
        thing: usize,
        pos: &Vec3,
        rd: &Vec3,
        scene: &MyScene,
        depth: i32,
    ) -> (c: Color)
        requires
            thing < scene.things@.len(),
            depth < MAX_DEPTH,
        ensures
            c@ == reflection_v(
                scene.things@,
                scene.lights@,
                thing as int,
                pos@,
                rd@,
                depth as int,
            ),
        decreases depth_fuel(depth as int), 0int,
    {
        let traced = self.trace_ray(&Ray::new(*pos, *rd), scene, depth + 1);
        traced.scale(scene.things()[thing].surface().reflect(pos))
    }

    /// Fold one light into the accumulated direct color: skip it when a
    /// primitive shadows it, otherwise add its diffuse and specular
    /// contribution.
    pub fn add_light(
        &self,
        thing: usize,
        pos: &Vec3,
        normal: &Vec3,
        rd: &Vec3,
        scene: &MyScene,
        col: &Color,
        light: &Light,
    ) -> (c: Color)
        requires
            thing < scene.things@.len(),
        ensures
            c@ == add_light_v(
                scene.things@,
                thing as int,
                pos@,
                normal@,
                rd@,
                col@,
                *light,
            ),
    {
        let ldis = light.pos.sub(*pos);
        let livec = ldis.norm();
        let near_dist = self.test_ray(&Ray::new(*pos, livec), scene);
        let is_in_shadow = match near_dist {
            Some(near) => near.raw < ldis.mag().raw,
            None => false,
        };
        if is_in_shadow {
            return *col;
        }
        let illum = livec.dot(*normal);
        let lcolor = if illum.raw > 0 {
            light.col.scale(illum)
        } else {
            Color::default_color()
        };
        let specular = livec.dot(rd.norm());
        let surf = scene.things()[thing].surface();
        let scolor = if specular.raw > 0 {
            light.col.scale(specular.pow(surf.roughness()))
        } else {
            Color::default_color()
        };
        col.add(surf.diffuse(pos).mul(lcolor).add(surf.specular(pos).mul(scolor)))
    }

    /// Direct illumination at a hit: every light folded in, in scene
    /// order.
    pub fn natural_color(
        &self,
        thing: usize,
        pos: &Vec3,
        normal: &Vec3,
        rd: &Vec3,
        scene: &MyScene,
    ) -> (c: Color)
        requires
            thing < scene.things@.len(),
        ensures
            c@ == natural_color_v(
                scene.things@,
                scene.lights@,
                thing as int,
                pos@,
                normal@,
                rd@,
                scene.lights@.len() as int,
            ),
    {
        let mut col = Color::default_color();
        let mut i: usize = 0;
        let n = scene.lights().len();
        while i < n
            invariant
                i <= n == scene.lights@.len(),
                thing < scene.things@.len(),
                col@ == natural_color_v(
                    scene.things@,
                    scene.lights@,
                    thing as int,
                    pos@,
                    normal@,
                    rd@,
                    i as int,
                ),
            decreases n - i,
        {
            let light = &scene.lights()[i];
            col = self.add_light(thing, pos, normal, rd, scene, &col, light);
            i = i + 1;
        }
        col
    }

    /// The world-space ray direction for pixel `(x, y)`.
    pub fn point(&self, width: i32, height: i32, x: i32, y: i32, cam: &Camera) -> (p: Vec3)
        ensures
            p@ == point_dir(
                width as int,
                height as int,
                x as int,
                y as int,
                cam.forward@,
                cam.right@,
                cam.up@,
            ),
    {
        let fw = Fx::from_int(width as i64);
        let fh = Fx::from_int(height as i64);
        let px = Fx::from_int(x as i64);
        let py = Fx::from_int(y as i64);
        let two = Fx { raw: 131072 };
        let rx = px.sub(fw.div(two)).div(two).div(fw);
        let ry = py.sub(fh.div(two)).neg().div(two).div(fh);
        cam.forward.add(cam.right.scale(rx).add(cam.up.scale(ry))).norm()
    }

    /// Render the scene into the statically sized canvas, one traced ray
    /// per pixel, rows top to bottom.
    #[verifier::loop_isolation(false)]
    #[verifier::rlimit(60)]
    pub fn render_ct(&self, scene: &MyScene, canvas: &mut StaticCanvas, width: i32, height: i32)
        requires
            old(canvas)@.len() == CANVAS_WIDTH as int * CANVAS_HEIGHT as int * 3,
            0 <= width <= CANVAS_WIDTH as int,
            0 <= height <= CANVAS_HEIGHT as int,
        ensures
            final (canvas)@.len() == old(canvas)@.len(),
            forall|i: int|
                0 <= i < final (canvas)@.len() ==> final (canvas)@[i] == render_byte(
                    scene.things@,
                    scene.lights@,
                    scene.camera.pos@,
                    scene.camera.forward@,
                    scene.camera.right@,
                    scene.camera.up@,
                    width as int,
                    height as int,
                    CANVAS_WIDTH as int,
                    old(canvas)@,
                    i,
                ),
    {
        let ghost things = scene.things@;
        let ghost lights = scene.lights@;
        let ghost campos = scene.camera.pos@;
        let ghost fwd = scene.camera.forward@;
        let ghost rgt = scene.camera.right@;
        let ghost upv = scene.camera.up@;
        let ghost cw = CANVAS_WIDTH as int;
        let ghost ch = CANVAS_HEIGHT as int;
        let ghost w = width as int;
        let ghost h = height as int;
        let ghost oldb = old(canvas)@;
        let mut y: i32 = 0;
        while y < height
            invariant
                0 <= y <= height,
                canvas@.len() == oldb.len() == cw * ch * 3,
                forall|i: int|
                    0 <= i < canvas@.len() ==> canvas@[i] == render_byte_upto(
                        things,
                        lights,
                        campos,
                        fwd,
                        rgt,
                        upv,
                        w,
                        h,
                        cw,
                        oldb,
                        i,
                        0,
                        y as int,
                    ),
            decreases height - y,
        {
            let mut x: i32 = 0;
            while x < width
                invariant
                    0 <= x <= width,
                    0 <= y < height,
                    canvas@.len() == oldb.len() == cw * ch * 3,
                    forall|i: int|
                        0 <= i < canvas@.len() ==> canvas@[i] == render_byte_upto(
                            things,
                            lights,
                            campos,
                            fwd,
                            rgt,
                            upv,
                            w,
                            h,
                            cw,
                            oldb,
                            i,
                            x as int,
                            y as int,
                        ),
                decreases width - x,
            {
                let dir = self.point(width, height, x, y, scene.camera());
                let color = self.trace_ray(&Ray::new(scene.camera().pos, dir), scene, 0);
                let ghost prev = canvas@;
                canvas.set_pixel(x as usize, y as usize, color);
                proof {
                    reveal(pixel_color);
                    assert((y as int * cw + x as int) * 3 + 2 < prev.len()) by (nonlinear_arith)
                        requires
                            0 <= x as int,
                            (x as int) < cw,
                            0 <= y as int,
                            (y as int) < ch,
                            prev.len() == cw * ch * 3,
                    ;
                    lemma_render_step(
                        things,
                        lights,
                        campos,
                        fwd,
                        rgt,
                        upv,
                        w,
                        h,
                        cw,
                        oldb,
                        prev,
                        canvas@,
                        x as int,
                        y as int,
                        color@,
                    );
                }
                x = x + 1;
            }
            y = y + 1;
        }
    }

    /// Render the scene into a dynamically sized canvas, one traced ray
    /// per pixel, rows top to bottom.
    #[verifier::loop_isolation(false)]
    #[verifier::rlimit(60)]
    pub fn render_rt(&self, scene: &MyScene, canvas: &mut DynamicCanvas, width: i32, height: i32)
        requires
            old(canvas).wf(),
            0 <= width <= old(canvas).spec_width(),
            0 <= height <= old(canvas).spec_height(),
        ensures
            final (canvas).wf(),
            final (canvas).spec_width() == old(canvas).spec_width(),
            final (canvas).spec_height() == old(canvas).spec_height(),
            final (canvas)@.len() == old(canvas)@.len(),
            forall|i: int|
                0 <= i < final (canvas)@.len() ==> final (canvas)@[i] == render_byte(
                    scene.things@,
                    scene.lights@,
                    scene.camera.pos@,
                    scene.camera.forward@,
                    scene.camera.right@,
                    scene.camera.up@,
                    width as int,
                    height as int,
                    old(canvas).spec_width(),
                    old(canvas)@,
                    i,
                ),
    {
        let ghost things = scene.things@;
        let ghost lights = scene.lights@;
        let ghost campos = scene.camera.pos@;
        let ghost fwd = scene.camera.forward@;
        let ghost rgt = scene.camera.right@;
        let ghost upv = scene.camera.up@;
        let ghost cw = old(canvas).spec_width();
        let ghost ch = old(canvas).spec_height();
        let ghost w = width as int;
        let ghost h = height as int;
        let ghost oldb = old(canvas)@;
        let mut y: i32 = 0;
        while y < height
            invariant
                0 <= y <= height,
                canvas.wf(),
                canvas.spec_width() == cw,
                canvas.spec_height() == ch,
                w <= cw,
                h <= ch,
                canvas@.len() == oldb.len(),
                forall|i: int|
                    0 <= i < canvas@.len() ==> canvas@[i] == render_byte_upto(
                        things,
                        lights,
                        campos,
                        fwd,
                        rgt,
                        upv,
                        w,
                        h,
                        cw,
                        oldb,
                        i,
                        0,
                        y as int,
                    ),
            decreases height - y,
        {
            let mut x: i32 = 0;
            while x < width
                invariant
                    0 <= x <= width,
                    0 <= y < height,
                    canvas.wf(),
                    canvas.spec_width() == cw,
                    canvas.spec_height() == ch,
                    w <= cw,
                    h <= ch,
                    canvas@.len() == oldb.len(),
                    forall|i: int|
                        0 <= i < canvas@.len() ==> canvas@[i] == render_byte_upto(
                            things,
                            lights,
                            campos,
                            fwd,
                            rgt,
                            upv,
                            w,
                            h,
                            cw,
                            oldb,
                            i,
                            x as int,
                            y as int,
                        ),
                decreases width - x,
            {
                let dir = self.point(width, height, x, y, scene.camera());
                let color = self.trace_ray(&Ray::new(scene.camera().pos, dir), scene, 0);
                let ghost prev = canvas@;
                canvas.set_pixel(x as usize, y as usize, color);
                proof {
                    reveal(pixel_color);
                    assert((y as int * cw + x as int) * 3 + 2 < prev.len()) by (nonlinear_arith)
                        requires
                            0 <= x as int,
                            (x as int) < cw,
                            0 <= y as int,
                            (y as int) < ch,
                            prev.len() == cw * ch * 3,
                    ;
                    lemma_render_step(
                        things,
                        lights,
                        campos,
                        fwd,
                        rgt,
                        upv,
                        w,
                        h,
                        cw,
                        oldb,
                        prev,
                        canvas@,
                        x as int,
                        y as int,
                        color@,
                    );
                }
                x = x + 1;
            }
            y = y + 1;
        }
    }
}

/// Writing pixel `(x, y)` advances the rendered prefix by one pixel:
/// the three updated bytes take their quantized channels and every other
/// byte keeps its partial-render value.
#[verifier::rlimit(100)]
proof fn lemma_render_step(
    things: Seq<Thing>,
    lights: Seq<Light>,
    campos: V3,
    forward: V3,
    right: V3,
    up: V3,
    w: int,
    h: int,
    cw: int,
    oldb: Seq<u8>,
    prev: Seq<u8>,
    cur: Seq<u8>,
    x: int,
    y: int,
    c: ColorV,
)
    requires
        0 <= x < w <= cw,
        0 <= y < h,
        prev.len() == oldb.len(),
        (y * cw + x) * 3 + 2 < prev.len(),
        c == pixel_color(things, lights, campos, forward, right, up, w, h, x, y),
        cur == put_pixel(prev, cw, x, y, c),
        forall|i: int|
            0 <= i < prev.len() ==> prev[i] == render_byte_upto(
                things,
                lights,
                campos,
                forward,
                right,
                up,
                w,
                h,
                cw,
                oldb,
                i,
                x,
                y,
            ),
    ensures
        cur.len() == prev.len(),
        forall|i: int|
            0 <= i < cur.len() ==> cur[i] == render_byte_upto(
                things,
                lights,
                campos,
                forward,
                right,
                up,
                w,
                h,
                cw,
                oldb,
                i,
                x + 1,
                y,
            ),
{
    let base = (y * cw + x) * 3;
    lemma_pix_index(cw, x, y, 0);
    lemma_pix_index(cw, x, y, 1);
    lemma_pix_index(cw, x, y, 2);
    assert forall|i: int| 0 <= i < cur.len() implies cur[i] == render_byte_upto(
        things,
        lights,
        campos,
        forward,
        right,
        up,
        w,
        h,
        cw,
        oldb,
        i,
        x + 1,
        y,
    ) by {
        lemma_decomp(i, 3);
        lemma_decomp(i / 3, cw);
        let p = i / 3;
        let k = i % 3;
        let xi = p % cw;
        let yi = p / cw;
        assert(p == cw * yi + xi);
        if p == y * cw + x {
            assert(xi == x && yi == y);
            assert(i == base + k);
            if k == 0 {
                assert(cur[i] == quant(c.r) as u8);
            } else if k == 1 {
                assert(cur[i] == quant(c.g) as u8);
            } else {
                assert(cur[i] == quant(c.b) as u8);
            }
        } else {
            if xi == x && yi == y {
                assert(p == cw * y + x);
                assert(cw * y == y * cw) by (nonlinear_arith);
                assert(false);
            }
            assert(i != base && i != base + 1 && i != base + 2);
            assert(cur[i] == prev[i]);
        }
    }
}

} // verus!
