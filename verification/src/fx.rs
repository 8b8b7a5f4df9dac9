//! Fixed-point real numbers.
//!
//! A real value is held as `raw / SCALE` where `raw` is an `i64` and
//! `SCALE` is 2^16.  Every operation saturates at the `i64` range instead
//! of overflowing, and division by zero yields zero, so all operations are
//! total and their results are pinned down exactly by the spec functions
//! below.

use vstd::prelude::*;

verus! {

/// Number of raw units per whole unit: fixed-point values carry 16
/// fractional bits.
pub const SCALE: i64 = 65536;

/// Saturate an unbounded integer into the `i64` range.
pub open spec fn clip(x: int) -> int {
    if x > i64::MAX as int {
        i64::MAX as int
    } else if x < i64::MIN as int {
        i64::MIN as int
    } else {
        x
    }
}

/// Division truncating toward zero (the machine's signed division), made
/// total by mapping a zero divisor to zero.
pub open spec fn tdiv(a: int, b: int) -> int {
    if b == 0 {
        0
    } else if a >= 0 && b > 0 {
        a / b
    } else if a < 0 && b < 0 {
        (a * -1) / (b * -1)
    } else if a < 0 {
        ((a * -1) / b) * -1
    } else {
        (a / (b * -1)) * -1
    }
}

/// Raw value of the fixed-point sum.
pub open spec fn fx_add(a: int, b: int) -> int {
    clip(a + b)
}

/// Raw value of the fixed-point difference.
pub open spec fn fx_sub(a: int, b: int) -> int {
    clip(a - b)
}

/// Raw value of the fixed-point negation.
pub open spec fn fx_neg(a: int) -> int {
    clip(-a)
}

/// Raw value of the fixed-point product: the exact product has 32
/// fractional bits, and truncating toward zero drops the extra 16.
pub open spec fn fx_mul(a: int, b: int) -> int {
    clip(tdiv(a * b, SCALE as int))
}

/// Raw value of the fixed-point quotient.
pub open spec fn fx_div(a: int, b: int) -> int {
    clip(tdiv(a * (SCALE as int), b))
}

/// A real number in 48.16 fixed-point representation.
#[derive(Clone, Copy, PartialEq, Eq, Structural, Debug)]
pub struct Fx {
    pub raw: i64,
}

impl View for Fx {
    type V = int;

    open spec fn view(&self) -> int {
        self.raw as int
    }
}

/// Saturate an `i128` intermediate result into the `i64` range.
fn clip128(q: i128) -> (r: i64)
    ensures
        r as int == clip(q as int),
{
    if q > i64::MAX as i128 {
        i64::MAX
    } else if q < i64::MIN as i128 {
        i64::MIN
    } else {
        q as i64
    }
}

/// Truncating division of an `i128` numerator by a nonzero `i64`-ranged
/// divisor, saturated into the `i64` range.
fn div128(num: i128, den: i128) -> (r: i64)
    requires
        den != 0,
        i64::MIN as int * SCALE as int <= num as int <= i64::MAX as int * SCALE as int,
        i64::MIN as int <= den as int <= -(i64::MIN as int),
    ensures
        r as int == clip(tdiv(num as int, den as int)),
{
    let q = match num.checked_div(den) {
        Some(q) => q,
        None => {
            proof {
                lemma_tdiv_bound(num as int, den as int);
            }
            assert(false);
            0
        },
    };
    proof {
        lemma_tdiv_bound(num as int, den as int);
    }
    clip128(q)
}

/// The magnitude of a truncating quotient never exceeds the magnitude of
/// the numerator, so dividing an in-range numerator cannot overflow.
proof fn lemma_tdiv_bound(a: int, b: int)
    requires
        b != 0,
    ensures
        tdiv(a, b) == if a >= 0 && b > 0 {
            a / b
        } else if a < 0 && b < 0 {
            (a * -1) / (b * -1)
        } else if a < 0 {
            ((a * -1) / b) * -1
        } else {
            (a / (b * -1)) * -1
        },
        a >= 0 ==> -a <= tdiv(a, b) <= a,
        a < 0 ==> a <= tdiv(a, b) <= -a,
{
    if a >= 0 && b > 0 {
        lemma_nonneg_div_le(a, b);
    } else if a < 0 && b < 0 {
        lemma_nonneg_div_le(a * -1, b * -1);
    } else if a < 0 {
        lemma_nonneg_div_le(a * -1, b);
    } else {
        lemma_nonneg_div_le(a, b * -1);
    }
}

/// Euclidean division of a nonnegative value by a positive one shrinks it.
proof fn lemma_nonneg_div_le(a: int, b: int)
    requires
        a >= 0,
        b >= 1,
    ensures
        0 <= a / b <= a,
{
    assert(0 <= a / b <= a) by (nonlinear_arith)
        requires
            a >= 0,
            b >= 1,
    ;
}

impl Fx {
    /// Wrap a raw scaled value.
    pub fn from_raw(raw: i64) -> (r: Fx)
        ensures
            r@ == raw as int,
    {
        Fx { raw }
    }

    /// The raw scaled value.
    pub fn raw(self) -> (r: i64)
        ensures
            r as int == self@,
    {
        self.raw
    }

    /// The real number zero.
    pub fn zero() -> (r: Fx)
        ensures
            r@ == 0,
    {
        Fx { raw: 0 }
    }

    /// The real number one.
    pub fn one() -> (r: Fx)
        ensures
            r@ == SCALE as int,
    {
        Fx { raw: SCALE }
    }

    /// Convert a whole number, saturating at the representable range.
    pub fn from_int(v: i64) -> (r: Fx)
        ensures
            r@ == clip(v * SCALE as int),
    {
        let w = (v as i128) * 65536i128;
        Fx { raw: clip128(w) }
    }

    /// The real number `n / d`, rounded toward zero; `d == 0` yields zero.
    pub fn from_ratio(n: i64, d: i64) -> (r: Fx)
        ensures
            r@ == fx_div(clip(n * SCALE as int), clip(d * SCALE as int)),
    {
        Fx::from_int(n).div(Fx::from_int(d))
    }

    /// Saturating addition.
    pub fn add(self, other: Fx) -> (r: Fx)
        ensures
            r@ == fx_add(self@, other@),
    {
        let s = self.raw as i128 + other.raw as i128;
        Fx { raw: clip128(s) }
    }

    /// Saturating subtraction.
    pub fn sub(self, other: Fx) -> (r: Fx)
        ensures
            r@ == fx_sub(self@, other@),
    {
        let s = self.raw as i128 - other.raw as i128;
        Fx { raw: clip128(s) }
    }

    /// Saturating negation.
    pub fn neg(self) -> (r: Fx)
        ensures
            r@ == fx_neg(self@),
    {
        if self.raw == i64::MIN {
            Fx { raw: i64::MAX }
        } else {
            Fx { raw: -self.raw }
        }
    }

    /// Saturating fixed-point multiplication.
    pub fn mul(self, other: Fx) -> (r: Fx)
        ensures
            r@ == fx_mul(self@, other@),
    {
        let p = match (self.raw as i128).checked_mul(other.raw as i128) {
            Some(p) => p,
            None => {
                proof {
                    lemma_i64_product_fits(self.raw as int, other.raw as int);
                }
                assert(false);
                0
            },
        };
        proof {
            lemma_i64_product_fits(self.raw as int, other.raw as int);
        }
        let q = match p.checked_div(SCALE as i128) {
            Some(q) => q,
            None => {
                proof {
                    lemma_tdiv_bound(p as int, SCALE as int);
                }
                assert(false);
                0
            },
        };
        proof {
            lemma_tdiv_bound(p as int, SCALE as int);
        }
        Fx { raw: clip128(q) }
    }

    /// Saturating fixed-point division by the negation of a negative
    /// divisor, which may not itself be representable.
    pub(crate) fn div_by_neg(self, denom: Fx) -> (r: Fx)
        requires
            denom@ < 0,
        ensures
            r@ == fx_div(self@, -denom@),
    {
        let num = (self.raw as i128) * 65536i128;
        Fx { raw: div128(num, -(denom.raw as i128)) }
    }

    /// Saturating fixed-point division; a zero divisor yields zero.
    pub fn div(self, other: Fx) -> (r: Fx)
        ensures
            r@ == fx_div(self@, other@),
    {
        if other.raw == 0 {
            Fx { raw: 0 }
        } else {
            let num = (self.raw as i128) * 65536i128;
            Fx { raw: div128(num, other.raw as i128) }
        }
    }
}

/// Floor of the square root of a natural number, computed by halving the
/// argument's digits: `isqrt(n)` is within one of twice `isqrt(n / 4)`.
pub open spec fn isqrt(n: nat) -> nat
    decreases n,
{
    if n < 2 {
        n
    } else {
        let s = 2 * isqrt(n / 4);
        if (s + 1) * (s + 1) <= n {
            s + 1
        } else {
            s
        }
    }
}

/// `isqrt(n)` is the greatest natural number whose square is at most `n`.
pub proof fn lemma_isqrt_bounds(n: nat)
    ensures
        isqrt(n) * isqrt(n) <= n,
        n < (isqrt(n) + 1) * (isqrt(n) + 1),
    decreases n,
{
    if n < 2 {
        assert(isqrt(n) == n);
        assert(n * n <= n && n < (n + 1) * (n + 1)) by (nonlinear_arith)
            requires
                n < 2,
        ;
    } else {
        let m = n / 4;
        lemma_isqrt_bounds(m);
        let s = 2 * isqrt(m);
        assert(n as int == 4 * (n as int / 4) + n as int % 4) by {
            vstd::arithmetic::div_mod::lemma_fundamental_div_mod(n as int, 4);
        };
        assert(m == n as int / 4);
        assert(4 * m <= n < 4 * (m + 1));
        assert(s * s <= 4 * m && 4 * (m + 1) <= (s + 2) * (s + 2)) by (nonlinear_arith)
            requires
                isqrt(m) * isqrt(m) <= m,
                m < (isqrt(m) + 1) * (isqrt(m) + 1),
                s == 2 * isqrt(m),
        ;
        if (s + 1) * (s + 1) <= n {
            assert(isqrt(n) == s + 1);
        } else {
            assert(isqrt(n) == s);
        }
    }
}

/// Any natural number bracketed by the same pair of adjacent squares as
/// `n`'s root is that root.
pub proof fn lemma_isqrt_unique(n: nat, r: nat)
    requires
        r * r <= n,
        n < (r + 1) * (r + 1),
    ensures
        r == isqrt(n),
{
    lemma_isqrt_bounds(n);
    let q = isqrt(n);
    if r < q {
        assert(false) by (nonlinear_arith)
            requires
                r + 1 <= q,
                q * q <= n,
                n < (r + 1) * (r + 1),
        ;
    }
    if q < r {
        assert(false) by (nonlinear_arith)
            requires
                q + 1 <= r,
                r * r <= n,
                n < (q + 1) * (q + 1),
        ;
    }
}

/// Integer square root by bisection over the root's range.
fn isqrt_u128(n: u128) -> (r: u128)
    requires
        n <= 0x1_0000_0000_0000_0000_0000u128,
    ensures
        r as nat == isqrt(n as nat),
        r <= 0x100_0000_0000u128,
{
    let mut lo: u128 = 0;
    let mut hi: u128 = 0x100_0000_0000;
    proof {
        assert(n < (0x100_0000_0000 + 1) * (0x100_0000_0000 + 1)) by (nonlinear_arith)
            requires
                n <= 0x1_0000_0000_0000_0000_0000u128,
        ;
    }
    while lo < hi
        invariant
            lo <= hi <= 0x100_0000_0000u128,
            lo * lo <= n,
            n < (hi + 1) * (hi + 1),
        decreases hi - lo,
    {
        let mid = lo + (hi - lo + 1) / 2;
        proof {
            assert(mid * mid <= 0x1_0000_0000_0000_0000_0000_0000) by (nonlinear_arith)
                requires
                    mid <= 0x100_0000_0000u128,
            ;
        }
        if mid * mid <= n {
            lo = mid;
        } else {
            hi = mid - 1;
        }
    }
    proof {
        lemma_isqrt_unique(n as nat, lo as nat);
    }
    lo
}

/// Raw value of the fixed-point square root: the scaled argument's integer
/// root, so the result is the floor of the exact root in raw units.
/// Arguments at or below zero yield zero.
pub open spec fn fx_sqrt(v: int) -> int {
    if v <= 0 {
        0
    } else {
        isqrt((v * SCALE as int) as nat) as int
    }
}

/// Raw value of the fixed-point power: `e` successive fixed-point
/// multiplications of one by `b`.
pub open spec fn fx_pow(b: int, e: int) -> int
    decreases e,
{
    if e <= 0 {
        SCALE as int
    } else {
        fx_mul(fx_pow(b, e - 1), b)
    }
}

/// Raw value of the floor: the greatest whole multiple of `SCALE` at or
/// below the argument.
pub open spec fn fx_floor(v: int) -> int {
    (v / SCALE as int) * SCALE as int
}

/// The floor as a plain integer count of whole units.
pub open spec fn fx_floor_units(v: int) -> int {
    v / SCALE as int
}

/// Raw value of the three-way bound.
pub open spec fn fx_clamp(v: int, lo: int, hi: int) -> int {
    if v < lo {
        lo
    } else if v > hi {
        hi
    } else {
        v
    }
}

impl Fx {
    /// Fixed-point square root.
    pub fn sqrt(self) -> (r: Fx)
        ensures
            r@ == fx_sqrt(self@),
    {
        if self.raw <= 0 {
            Fx { raw: 0 }
        } else {
            let n: u128 = (self.raw as u128) * 65536u128;
            let r = isqrt_u128(n);
            Fx { raw: r as i64 }
        }
    }

    /// Fixed-point power with a whole-number exponent; exponents at or
    /// below zero yield one.
    pub fn pow(self, iexp: i32) -> (r: Fx)
        ensures
            r@ == fx_pow(self@, iexp as int),
    {
        let mut val = Fx { raw: SCALE };
        if iexp <= 0 {
            return val;
        }
        let mut i: i32 = 0;
        while i < iexp
            invariant
                0 <= i <= iexp,
                val@ == fx_pow(self@, i as int),
            decreases iexp - i,
        {
            val = val.mul(self);
            i = i + 1;
        }
        val
    }

    /// Floor toward negative infinity, as a fixed-point value.
    pub fn floor(self) -> (r: Fx)
        ensures
            r@ == fx_floor(self@),
    {
        let units = self.floor_units();
        Fx { raw: units * 65536 }
    }

    /// Floor toward negative infinity, as a count of whole units.
    pub fn floor_units(self) -> (r: i64)
        ensures
            r as int == fx_floor_units(self@),
            -0x8000_0000_0000 <= r <= 0x7fff_ffff_ffff,
    {
        proof {
            vstd::arithmetic::div_mod::lemma_div_is_ordered(
                i64::MIN as int,
                self.raw as int,
                SCALE as int,
            );
            vstd::arithmetic::div_mod::lemma_div_is_ordered(
                self.raw as int,
                i64::MAX as int,
                SCALE as int,
            );
        }
        if self.raw >= 0 {
            ((self.raw as u64) / 65536u64) as i64
        } else {
            let m = (-(self.raw as i128)) as u128;
            let q = m / 65536u128;
            let rem = m % 65536u128;
            proof {
                vstd::arithmetic::div_mod::lemma_fundamental_div_mod(m as int, 65536);
                if rem == 0 {
                    vstd::arithmetic::div_mod::lemma_fundamental_div_mod_converse_div(
                        self.raw as int,
                        65536,
                        -(q as int),
                        0,
                    );
                } else {
                    vstd::arithmetic::div_mod::lemma_fundamental_div_mod_converse_div(
                        self.raw as int,
                        65536,
                        -(q as int) - 1,
                        65536 - rem as int,
                    );
                }
            }
            if rem == 0 {
                (-(q as i128)) as i64
            } else {
                ((-(q as i128)) - 1) as i64
            }
        }
    }

    /// The standard three-way bound.
    pub fn clamp(self, lo: Fx, hi: Fx) -> (r: Fx)
        ensures
            r@ == fx_clamp(self@, lo@, hi@),
    {
        if self.raw < lo.raw {
            lo
        } else if self.raw > hi.raw {
            hi
        } else {
            self
        }
    }
}

/// The product of two `i64` values always fits in an `i128`.
proof fn lemma_i64_product_fits(a: int, b: int)
    requires
        i64::MIN as int <= a <= i64::MAX as int,
        i64::MIN as int <= b <= i64::MAX as int,
    ensures
        i128::MIN as int <= a * b <= i128::MAX as int,
{
    assert(i128::MIN as int <= a * b <= i128::MAX as int) by (nonlinear_arith)
        requires
            -0x8000_0000_0000_0000 <= a <= 0x7fff_ffff_ffff_ffff,
            -0x8000_0000_0000_0000 <= b <= 0x7fff_ffff_ffff_ffff,
    ;
}

} // verus!
