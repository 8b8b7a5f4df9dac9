//! The renderer's stated laws, proved against the same spec functions
//! that the executable functions' contracts use.

use vstd::prelude::*;
use crate::fx::{fx_add, fx_mul, fx_sqrt, isqrt, lemma_isqrt_unique};
use crate::vec3::{V3, v3_add, v3_sub, v3_scale, v3_dot, v3_mag};
use crate::color::{ColorV, black_v, white_v};
use crate::shapes::{Thing, Sphere, Plane, sphere_hit, plane_hit, thing_normal};
use crate::surface::{MySurface, checker_is_white, surf_diffuse};
use crate::scene::Light;
use crate::tracer::{
    nearest_hit,
    trace_v,
    natural_color_v,
    add_light_v,
    light_blocked,
    MAX_DEPTH,
};

verus! {

/// A ray that misses every primitive traces to exactly the background
/// color, black, whatever the recursion depth.
pub proof fn lemma_miss_is_background(
    things: Seq<Thing>,
    lights: Seq<Light>,
    start: V3,
    dir: V3,
    depth: int,
)
    requires
        nearest_hit(things, start, dir) is None,
    ensures
        trace_v(things, lights, start, dir, depth) == black_v(),
{
}

/// Depth strictly increases into each reflection and is compared against
/// the bound before recursing, so at or beyond `MAX_DEPTH` the reflected
/// term is the flat grey placeholder and no deeper ray changes anything:
/// every trace at or past the bound equals the trace at the bound.
pub proof fn lemma_depth_capped(
    things: Seq<Thing>,
    lights: Seq<Light>,
    start: V3,
    dir: V3,
    depth: int,
)
    requires
        depth >= MAX_DEPTH as int,
    ensures
        trace_v(things, lights, start, dir, depth) == trace_v(
            things,
            lights,
            start,
            dir,
            MAX_DEPTH as int,
        ),
{
}

/// A ray aimed along an axis at a sphere's exact center, with the center
/// a whole number `k` of units away and a whole-number radius `j`, hits
/// at exactly the center distance minus the radius.
pub proof fn lemma_center_ray_distance(s: Sphere, start: V3, dir: V3, k: int, j: int)
    requires
        1 <= j <= 0x7fff,
        1 <= k <= 0x7fff,
        j != k,
        dir == (V3 { x: 0, y: 0, z: -65536 }),
        s.centre@ == (V3 { x: start.x, y: start.y, z: start.z - k * 65536 }),
        s.radius2@ == fx_mul(j * 65536, j * 65536),
        i64::MIN <= start.x <= i64::MAX,
        i64::MIN <= start.y <= i64::MAX,
        i64::MIN <= start.z <= i64::MAX,
        i64::MIN <= start.z - k * 65536 <= i64::MAX,
    ensures
        v3_mag(v3_sub(s.centre@, start)) == k * 65536,
        fx_sqrt(s.radius2@) == j * 65536,
        sphere_hit(s, start, dir) == Some((k - j) * 65536),
        sphere_hit(s, start, dir) == Some(
            v3_mag(v3_sub(s.centre@, start)) - fx_sqrt(s.radius2@),
        ),
{
    let eo = v3_sub(s.centre@, start);
    assert(eo == (V3 { x: 0, y: 0, z: -(k * 65536) }));
    assert((65536int * (k * 65536)) / 65536 == k * 65536) by {
        vstd::arithmetic::div_mod::lemma_div_multiples_vanish(k * 65536, 65536);
    };
    assert((k * 65536) * 65536 == 65536 * (k * 65536)) by (nonlinear_arith);
    let v = v3_dot(eo, dir);
    assert(v == k * 65536);
    let kk = (k * k) * 65536;
    assert((k * 65536) * (k * 65536) == 65536 * kk && 0 <= kk <= 0x4000_0000_0000_0000)
        by (nonlinear_arith)
        requires
            1 <= k <= 0x7fff,
            kk == (k * k) * 65536,
    ;
    assert((65536int * kk) / 65536 == kk) by {
        vstd::arithmetic::div_mod::lemma_div_multiples_vanish(kk, 65536);
    };
    assert((-(k * 65536)) * (-(k * 65536)) == (k * 65536) * (k * 65536)) by (nonlinear_arith);
    assert(v3_dot(eo, eo) == kk);
    assert(fx_mul(v, v) == kk);
    let jj = (j * j) * 65536;
    assert((j * 65536) * (j * 65536) == 65536 * jj && 0 <= jj <= 0x4000_0000_0000_0000)
        by (nonlinear_arith)
        requires
            1 <= j <= 0x7fff,
            jj == (j * j) * 65536,
    ;
    assert((65536int * jj) / 65536 == jj) by {
        vstd::arithmetic::div_mod::lemma_div_multiples_vanish(jj, 65536);
    };
    assert(s.radius2@ == jj);
    assert(fx_sqrt(jj) == j * 65536) by {
        assert(jj * 65536 == (j * 65536) * (j * 65536)) by (nonlinear_arith)
            requires
                jj == (j * j) * 65536,
        ;
        assert((j * 65536) * (j * 65536) < (j * 65536 + 1) * (j * 65536 + 1))
            by (nonlinear_arith)
            requires
                1 <= j,
        ;
        lemma_isqrt_unique((jj * 65536) as nat, (j * 65536) as nat);
    };
    assert(fx_sqrt(kk) == k * 65536) by {
        assert(kk * 65536 == (k * 65536) * (k * 65536)) by (nonlinear_arith)
            requires
                kk == (k * k) * 65536,
        ;
        assert((k * 65536) * (k * 65536) < (k * 65536 + 1) * (k * 65536 + 1))
            by (nonlinear_arith)
            requires
                1 <= k,
        ;
        lemma_isqrt_unique((kk * 65536) as nat, (k * 65536) as nat);
    };
    assert(v3_mag(eo) == k * 65536);
    assert((k - j) * 65536 == k * 65536 - j * 65536) by (nonlinear_arith);
    assert((k - j) * 65536 != 0);
}

/// The hit point a downward axis ray finds on the horizontal unit plane
/// lies exactly on it: the plane equation evaluates to zero there.  The
/// plane's normal is the same at every position by `thing_normal`'s
/// definition, restated in `lemma_plane_normal_fixed`.
pub proof fn lemma_plane_hit_lies_on_plane(p: Plane, start: V3, dir: V3)
    requires
        p.norm@ == (V3 { x: 0, y: 65536, z: 0 }),
        p.offset@ == 0,
        dir == (V3 { x: 0, y: -65536, z: 0 }),
        0 <= start.y <= 0x1_0000_0000_0000,
        i64::MIN <= start.x <= i64::MAX,
        i64::MIN <= start.z <= i64::MAX,
    ensures
        plane_hit(p, start, dir) == Some(start.y),
        ({
            let pos = v3_add(v3_scale(start.y, dir), start);
            fx_add(v3_dot(p.norm@, pos), p.offset@) == 0
        }),
{
    assert((65536int * start.y) / 65536 == start.y) by {
        vstd::arithmetic::div_mod::lemma_div_multiples_vanish(start.y, 65536);
    };
    assert(start.y * 65536 == 65536 * start.y) by (nonlinear_arith);
    assert(v3_dot(p.norm@, dir) == -65536);
    assert(v3_dot(p.norm@, start) == start.y);
    assert(plane_hit(p, start, dir) == Some(start.y));
    let pos = v3_add(v3_scale(start.y, dir), start);
    assert(pos.y == 0);
    assert(fx_add(v3_dot(p.norm@, pos), p.offset@) == 0);
}

/// A plane's surface normal does not depend on the queried position.
pub proof fn lemma_plane_normal_fixed(p: Plane, pos1: V3, pos2: V3)
    ensures
        thing_normal(Thing::Plane(p), pos1) == p.norm@,
        thing_normal(Thing::Plane(p), pos1) == thing_normal(Thing::Plane(p), pos2),
{
}

/// Shifting a point by whole units `dx` along x and `dz` along z with
/// `dx + dz` odd lands on the opposite checker cell: the diffuse color
/// toggles between white and black.
pub proof fn lemma_checker_parity(pos: V3, dx: int, dz: int)
    requires
        (dx + dz) % 2 == 1,
        i64::MIN <= pos.x <= i64::MAX,
        i64::MIN <= pos.z <= i64::MAX,
        i64::MIN <= pos.x + dx * 65536 <= i64::MAX,
        i64::MIN <= pos.z + dz * 65536 <= i64::MAX,
    ensures
        ({
            let moved = V3 { x: pos.x + dx * 65536, y: pos.y, z: pos.z + dz * 65536 };
            checker_is_white(moved) != checker_is_white(pos) && surf_diffuse(
                MySurface::Checkerboard,
                moved,
            ) == (if checker_is_white(pos) {
                black_v()
            } else {
                white_v()
            })
        }),
{
    let moved = V3 { x: pos.x + dx * 65536, y: pos.y, z: pos.z + dz * 65536 };
    assert(pos.x / 65536 + dx == (pos.x + dx * 65536) / 65536) by {
        vstd::arithmetic::div_mod::lemma_hoist_over_denominator(pos.x, dx, 65536nat);
    };
    assert(pos.z / 65536 + dz == (pos.z + dz * 65536) / 65536) by {
        vstd::arithmetic::div_mod::lemma_hoist_over_denominator(pos.z, dz, 65536nat);
    };
    let s = pos.z / 65536 + pos.x / 65536;
    let t = dx + dz;
    assert(((s % 2) + (t % 2)) % 2 == (s + t) % 2) by {
        vstd::arithmetic::div_mod::lemma_add_mod_noop(s, t, 2);
    };
    assert(0 <= s % 2 < 2) by {
        vstd::arithmetic::div_mod::lemma_mod_division_less_than_divisor(s, 2);
    };
}

/// Two light sequences that agree on their first `n` lights illuminate a
/// hit identically over those lights.
pub proof fn lemma_natural_prefix(
    things: Seq<Thing>,
    l1: Seq<Light>,
    l2: Seq<Light>,
    tidx: int,
    pos: V3,
    normal: V3,
    rd: V3,
    n: int,
)
    requires
        forall|i: int| 0 <= i < n ==> l1[i] == l2[i],
    ensures
        natural_color_v(things, l1, tidx, pos, normal, rd, n) == natural_color_v(
            things,
            l2,
            tidx,
            pos,
            normal,
            rd,
            n,
        ),
    decreases n,
{
    if n > 0 {
        lemma_natural_prefix(things, l1, l2, tidx, pos, normal, rd, n - 1);
    }
}

/// A light whose path to the hit position is blocked by a nearer
/// primitive contributes exactly nothing: removing it from the lights
/// leaves the direct illumination unchanged, so the other lights'
/// contributions are unaffected.
pub proof fn lemma_shadowed_light_drops(
    things: Seq<Thing>,
    lights: Seq<Light>,
    tidx: int,
    pos: V3,
    normal: V3,
    rd: V3,
    n: int,
    j: int,
)
    requires
        0 <= j < n <= lights.len(),
        light_blocked(things, pos, lights[j]),
    ensures
        natural_color_v(things, lights, tidx, pos, normal, rd, n) == natural_color_v(
            things,
            lights.remove(j),
            tidx,
            pos,
            normal,
            rd,
            n - 1,
        ),
    decreases n,
{
    lights.remove_ensures(j);
    if j == n - 1 {
        assert(natural_color_v(things, lights, tidx, pos, normal, rd, n) == natural_color_v(
            things,
            lights,
            tidx,
            pos,
            normal,
            rd,
            n - 1,
        ));
        lemma_natural_prefix(things, lights, lights.remove(j), tidx, pos, normal, rd, n - 1);
    } else {
        lemma_shadowed_light_drops(things, lights, tidx, pos, normal, rd, n - 1, j);
        assert(lights.remove(j)[n - 2] == lights[n - 1]);
        assert(natural_color_v(things, lights.remove(j), tidx, pos, normal, rd, n - 1)
            == add_light_v(
            things,
            tidx,
            pos,
            normal,
            rd,
            natural_color_v(things, lights.remove(j), tidx, pos, normal, rd, n - 2),
            lights[n - 1],
        ));
    }
}

/// A blocked light folded into any accumulated color returns the
/// accumulator exactly.
pub proof fn lemma_shadow_blocks(
    things: Seq<Thing>,
    tidx: int,
    pos: V3,
    normal: V3,
    rd: V3,
    col: ColorV,
    light: Light,
)
    requires
        light_blocked(things, pos, light),
    ensures
        add_light_v(things, tidx, pos, normal, rd, col, light) == col,
{
}

} // verus!
