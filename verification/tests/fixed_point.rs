use ray_tracer::{Color, DynamicCanvas, Fx, StaticCanvas, Vec3};

#[test]
fn add_is_exact() {
    assert_eq!(Fx::from_int(2).add(Fx::from_int(3)).raw(), 5 * 65536);
    assert_eq!(Fx::from_raw(-5).add(Fx::from_raw(5)).raw(), 0);
}

#[test]
fn add_saturates() {
    assert_eq!(Fx::from_raw(i64::MAX).add(Fx::from_raw(1)).raw(), i64::MAX);
    assert_eq!(Fx::from_raw(i64::MIN).add(Fx::from_raw(-1)).raw(), i64::MIN);
}

#[test]
fn sub_and_neg() {
    assert_eq!(Fx::from_int(2).sub(Fx::from_int(5)).raw(), -3 * 65536);
    assert_eq!(Fx::from_int(7).neg().raw(), -7 * 65536);
    assert_eq!(Fx::from_raw(i64::MIN).neg().raw(), i64::MAX);
}

#[test]
fn mul_truncates_toward_zero() {
    // 0.5 * 0.5 == 0.25 exactly
    assert_eq!(Fx::from_raw(32768).mul(Fx::from_raw(32768)).raw(), 16384);
    // a tiny negative product truncates toward zero, not toward -inf
    assert_eq!(Fx::from_raw(-1).mul(Fx::from_raw(1)).raw(), 0);
    assert_eq!(Fx::from_raw(i64::MAX).mul(Fx::from_int(2)).raw(), i64::MAX);
}

#[test]
fn div_basics() {
    assert_eq!(Fx::from_int(1).div(Fx::from_int(2)).raw(), 32768);
    assert_eq!(Fx::from_int(-1).div(Fx::from_int(4)).raw(), -16384);
    // division by zero is defined as zero
    assert_eq!(Fx::from_int(3).div(Fx::zero()).raw(), 0);
}

#[test]
fn from_ratio_matches_division() {
    assert_eq!(Fx::from_ratio(49, 100).raw(), 32112);
    assert_eq!(Fx::from_ratio(1, 2).raw(), 32768);
    assert_eq!(Fx::from_ratio(-1, 4).raw(), -16384);
    assert_eq!(Fx::from_ratio(1, 0).raw(), 0);
}

#[test]
fn sqrt_exact_squares() {
    assert_eq!(Fx::from_int(4).sqrt().raw(), 2 * 65536);
    assert_eq!(Fx::from_int(25).sqrt().raw(), 5 * 65536);
    assert_eq!(Fx::one().sqrt().raw(), 65536);
    assert_eq!(Fx::from_int(-9).sqrt().raw(), 0);
}

#[test]
fn sqrt_rounds_down() {
    // sqrt(2) == 1.41421..., floor in raw units
    assert_eq!(Fx::from_int(2).sqrt().raw(), 92681);
}

#[test]
fn pow_is_repeated_multiplication() {
    assert_eq!(Fx::from_int(2).pow(10).raw(), 1024 * 65536);
    assert_eq!(Fx::from_int(9).pow(0).raw(), 65536);
    assert_eq!(Fx::from_int(9).pow(-3).raw(), 65536);
    // a fraction raised to a large exponent underflows to exactly zero
    assert_eq!(Fx::from_ratio(1, 2).pow(250).raw(), 0);
}

#[test]
fn floor_rounds_toward_negative_infinity() {
    assert_eq!(Fx::from_raw(98304).floor().raw(), 65536);  // 1.5 -> 1
    assert_eq!(Fx::from_raw(-98304).floor().raw(), -131072);  // -1.5 -> -2
    assert_eq!(Fx::from_int(-2).floor().raw(), -2 * 65536);  // whole numbers unchanged
    assert_eq!(Fx::from_int(3).floor().raw(), 3 * 65536);
    assert_eq!(Fx::from_raw(-1).floor_units(), -1);
    assert_eq!(Fx::from_raw(1).floor_units(), 0);
}

#[test]
fn clamp_bounds() {
    let lo = Fx::zero();
    let hi = Fx::one();
    assert_eq!(Fx::from_int(-3).clamp(lo, hi).raw(), 0);
    assert_eq!(Fx::from_int(3).clamp(lo, hi).raw(), 65536);
    assert_eq!(Fx::from_raw(123).clamp(lo, hi).raw(), 123);
}

#[test]
fn vector_operations() {
    let a = Vec3::new(Fx::from_int(3), Fx::zero(), Fx::from_int(4));
    assert_eq!(a.dot(a).raw(), 25 * 65536);
    assert_eq!(a.mag().raw(), 5 * 65536);
    let n = a.norm();
    assert_eq!(n.x.raw(), 39321);  // 3/5 rounded down in raw units
    assert_eq!(n.y.raw(), 0);
    assert_eq!(n.z.raw(), 52428);  // 4/5 rounded down in raw units
    let b = a.add(a);
    assert_eq!(b.x.raw(), 6 * 65536);
    let c = a.sub(a);
    assert_eq!(c.z.raw(), 0);
    let s = a.scale(Fx::from_int(2));
    assert_eq!(s.z.raw(), 8 * 65536);
}

#[test]
fn cross_product_axes() {
    let x = Vec3::new(Fx::one(), Fx::zero(), Fx::zero());
    let y = Vec3::new(Fx::zero(), Fx::one(), Fx::zero());
    let z = x.cross(y);
    assert_eq!((z.x.raw(), z.y.raw(), z.z.raw()), (0, 0, 65536));
}

#[test]
fn zero_vector_normalizes_to_zero() {
    let zero = Vec3::new(Fx::zero(), Fx::zero(), Fx::zero());
    let n = zero.norm();
    assert_eq!((n.x.raw(), n.y.raw(), n.z.raw()), (0, 0, 0));
}

#[test]
fn color_operations() {
    let a = Color::new(Fx::from_ratio(1, 2), Fx::zero(), Fx::one());
    let b = a.add(a);
    assert_eq!((b.r.raw(), b.g.raw(), b.b.raw()), (65536, 0, 131072));
    let m = a.mul(a);
    assert_eq!((m.r.raw(), m.g.raw(), m.b.raw()), (16384, 0, 65536));
    let s = a.scale(Fx::from_int(2));
    assert_eq!((s.r.raw(), s.g.raw(), s.b.raw()), (65536, 0, 131072));
    assert_eq!(Color::white().r.raw(), 65536);
    assert_eq!(Color::grey().g.raw(), 32768);
    assert_eq!(Color::black().b.raw(), 0);
    assert_eq!(Color::background(), Color::black());
    assert_eq!(Color::default_color(), Color::black());
}

#[test]
fn canvas_round_trip_red() {
    let mut canvas = DynamicCanvas::new(4, 4);
    canvas.set_pixel(1, 2, Color::new(Fx::one(), Fx::zero(), Fx::zero()));
    let bytes = canvas.into_vec();
    let off = (2 * 4 + 1) * 3;
    assert_eq!(&bytes[off..off + 3], &[255, 0, 0]);
}

#[test]
fn canvas_round_trip_clamps() {
    let mut canvas = DynamicCanvas::new(4, 4);
    canvas.set_pixel(0, 0, Color::new(Fx::from_int(-1), Fx::from_int(2), Fx::from_ratio(1, 2)));
    let bytes = canvas.into_vec();
    assert_eq!(&bytes[0..3], &[0, 255, 127]);
}

#[test]
fn static_canvas_round_trip() {
    let mut canvas = StaticCanvas::new();
    canvas.set_pixel(0, 0, Color::new(Fx::one(), Fx::zero(), Fx::one()));
    let bytes = canvas.into_array();
    assert_eq!(bytes.len(), 512 * 512 * 3);
    assert_eq!(&bytes[0..3], &[255, 0, 255]);
    assert_eq!(&bytes[3..6], &[0, 0, 0]);
}

#[test]
fn dynamic_canvas_reports_dimensions() {
    let canvas = DynamicCanvas::new(7, 5);
    assert_eq!(canvas.width(), 7);
    assert_eq!(canvas.height(), 5);
    assert_eq!(canvas.into_vec().len(), 7 * 5 * 3);
}
