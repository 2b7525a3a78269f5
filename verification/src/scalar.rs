//! The numeric capability that every element type of the engine supplies:
//! constants, elementwise arithmetic, an elementwise exponential map, and the
//! step used by the finite-difference oracle. Each capability comes in a pair:
//! a spec function naming the mathematical value and an executable function
//! proved to return it. The engine's contracts are all stated over the spec
//! half, so they hold for every type that satisfies this trait.

use vstd::prelude::*;
use vstd::arithmetic::power2::{pow2, lemma_pow2_unfold, lemma_pow2_strictly_increases, lemma2_to64, lemma2_to64_rest};

verus! {

/// Clamp a mathematical integer into the `i64` range.
pub open spec fn sat_i64(x: int) -> i64 {
    if x > i64::MAX {
        i64::MAX
    } else if x < i64::MIN {
        i64::MIN
    } else {
        x as i64
    }
}

/// Quotient of `a` by `b`, rounded toward zero.
pub open spec fn tdiv_int(a: int, b: int) -> int
    recommends
        b != 0,
{
    let aa = if a < 0 { -a } else { a };
    let bb = if b < 0 { -b } else { b };
    let q = aa / bb;
    if (a < 0) != (b < 0) {
        -q
    } else {
        q
    }
}

pub trait Scalar: Sized + Copy {
    /// The additive identity, used to zero-fill gradient storage.
    spec fn zero_spec() -> Self;

    /// The multiplicative identity.
    spec fn one_spec() -> Self;

    /// The constant that scales the local derivative of the square map.
    spec fn two_spec() -> Self;

    /// The finite-difference step: the type's unit of resolution, doubled,
    /// because a single unit is too small for a stable central difference.
    spec fn delta_spec() -> Self;

    spec fn add_spec(a: Self, b: Self) -> Self;

    spec fn sub_spec(a: Self, b: Self) -> Self;

    spec fn mul_spec(a: Self, b: Self) -> Self;

    spec fn div_spec(a: Self, b: Self) -> Self;

    /// The type's elementwise exponential map.
    spec fn exp_spec(a: Self) -> Self;

    /// The multiplicative identity is neutral on the right.
    proof fn lemma_mul_one(a: Self)
        ensures
            Self::mul_spec(a, Self::one_spec()) == a,
    ;

    fn zero() -> (r: Self)
        ensures
            r == Self::zero_spec(),
    ;

    fn one() -> (r: Self)
        ensures
            r == Self::one_spec(),
    ;

    fn two() -> (r: Self)
        ensures
            r == Self::two_spec(),
    ;

    fn delta() -> (r: Self)
        ensures
            r == Self::delta_spec(),
    ;

    fn add(self, b: Self) -> (r: Self)
        ensures
            r == Self::add_spec(self, b),
    ;

    fn sub(self, b: Self) -> (r: Self)
        ensures
            r == Self::sub_spec(self, b),
    ;

    fn mul(self, b: Self) -> (r: Self)
        ensures
            r == Self::mul_spec(self, b),
    ;

    fn div(self, b: Self) -> (r: Self)
        ensures
            r == Self::div_spec(self, b),
    ;

    fn exp(self) -> (r: Self)
        ensures
            r == Self::exp_spec(self),
    ;
}

/// A 64-bit integer scalar with saturating arithmetic. Its exponential map is
/// the saturating base-two power, so that exponentiation stays exact and the
/// engine can be exercised end to end on plain integers: division rounds
/// toward zero and yields zero on a zero divisor, and every operation clamps
/// into the `i64` range instead of wrapping.
impl Scalar for i64 {
    open spec fn zero_spec() -> i64 {
        0
    }

    open spec fn one_spec() -> i64 {
        1
    }

    open spec fn two_spec() -> i64 {
        2
    }

    open spec fn delta_spec() -> i64 {
        2
    }

    open spec fn add_spec(a: i64, b: i64) -> i64 {
        sat_i64(a + b)
    }

    open spec fn sub_spec(a: i64, b: i64) -> i64 {
        sat_i64(a - b)
    }

    open spec fn mul_spec(a: i64, b: i64) -> i64 {
        sat_i64(a * b)
    }

    open spec fn div_spec(a: i64, b: i64) -> i64 {
        if b == 0 {
            0
        } else {
            sat_i64(tdiv_int(a as int, b as int))
        }
    }

    open spec fn exp_spec(a: i64) -> i64 {
        if a < 0 {
            0
        } else if a >= 63 {
            i64::MAX
        } else {
            pow2(a as nat) as i64
        }
    }

    proof fn lemma_mul_one(a: i64) {
        assert(a * 1 == a);
    }

    fn zero() -> i64 {
        0
    }

    fn one() -> i64 {
        1
    }

    fn two() -> i64 {
        2
    }

    fn delta() -> i64 {
        2
    }

    fn add(self, b: i64) -> (r: i64) {
        let w: i128 = (self as i128) + (b as i128);
        clamp_to_i64(w)
    }

    fn sub(self, b: i64) -> (r: i64) {
        let w: i128 = (self as i128) - (b as i128);
        clamp_to_i64(w)
    }

    fn mul(self, b: i64) -> (r: i64) {
        let aw: i128 = self as i128;
        let bw: i128 = b as i128;
        proof {
            assert(aw * bw <= 0x4000_0000_0000_0000_0000_0000_0000_0000
                && aw * bw >= -0x4000_0000_0000_0000_0000_0000_0000_0000) by (nonlinear_arith)
                requires
                    -0x8000_0000_0000_0000 <= aw <= 0x7FFF_FFFF_FFFF_FFFF,
                    -0x8000_0000_0000_0000 <= bw <= 0x7FFF_FFFF_FFFF_FFFF,
            ;
        }
        let w: i128 = aw * bw;
        clamp_to_i64(w)
    }

    fn div(self, b: i64) -> (r: i64) {
        if b == 0 {
            0
        } else {
            let aw: i128 = self as i128;
            let bw: i128 = b as i128;
            let neg: bool = (aw < 0) != (bw < 0);
            let aa: u128 = (if aw < 0 { -aw } else { aw }) as u128;
            let bb: u128 = (if bw < 0 { -bw } else { bw }) as u128;
            let q: u128 = aa / bb;
            assert(q <= aa);
            let qi: i128 = q as i128;
            let s: i128 = if neg { -qi } else { qi };
            clamp_to_i64(s)
        }
    }

    fn exp(self) -> (r: i64) {
        if self < 0 {
            0
        } else if self >= 63 {
            i64::MAX
        } else {
            let mut acc: i64 = 1;
            let mut k: i64 = 0;
            proof {
                lemma2_to64();
            }
            while k < self
                invariant
                    0 <= k <= self < 63,
                    acc == pow2(k as nat),
                decreases self - k,
            {
                proof {
                    lemma_pow2_strictly_increases(k as nat, 62);
                    lemma_pow2_unfold((k + 1) as nat);
                    lemma2_to64();
                    lemma2_to64_rest();
                }
                acc = acc * 2;
                k = k + 1;
            }
            acc
        }
    }
}

/// Clamp a 128-bit value into the `i64` range; every saturating operation of
/// the `i64` scalar funnels through this.
fn clamp_to_i64(w: i128) -> (r: i64)
    ensures
        r == sat_i64(w as int),
{
    if w > i64::MAX as i128 {
        i64::MAX
    } else if w < i64::MIN as i128 {
        i64::MIN
    } else {
        w as i64
    }
}

} // verus!
