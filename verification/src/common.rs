//! Scalar helpers shared by the vector and matrix types.
use crate::scalar::compares;
use crate::scalar::constant;
use crate::scalar::converts;
use crate::scalar::num;
use crate::scalar::Scalar;
use core::cmp::Ordering;
use vstd::arithmetic::power2::*;
use vstd::prelude::*;
use vstd::std_specs::cmp::PartialOrdSpec;

verus! {

/// `n` is a power of two: `n == 2^k` for some natural number `k`.
pub open spec fn power_of_two(n: int) -> bool {
    exists|k: nat| n == #[trigger] pow2(k)
}

/// Every power of two that fits a positive `i32` is one of the 31 values
/// `2^0 ..= 2^30`.
pub open spec fn small_power_of_two(x: i32) -> bool {
    ||| x == 0x1
    ||| x == 0x2
    ||| x == 0x4
    ||| x == 0x8
    ||| x == 0x10
    ||| x == 0x20
    ||| x == 0x40
    ||| x == 0x80
    ||| x == 0x100
    ||| x == 0x200
    ||| x == 0x400
    ||| x == 0x800
    ||| x == 0x1000
    ||| x == 0x2000
    ||| x == 0x4000
    ||| x == 0x8000
    ||| x == 0x1_0000
    ||| x == 0x2_0000
    ||| x == 0x4_0000
    ||| x == 0x8_0000
    ||| x == 0x10_0000
    ||| x == 0x20_0000
    ||| x == 0x40_0000
    ||| x == 0x80_0000
    ||| x == 0x100_0000
    ||| x == 0x200_0000
    ||| x == 0x400_0000
    ||| x == 0x800_0000
    ||| x == 0x1000_0000
    ||| x == 0x2000_0000
    ||| x == 0x4000_0000
}

/// The listed values are exactly the powers of two among the `i32` values.
pub proof fn lemma_small_power_of_two(x: i32)
    ensures
        small_power_of_two(x) <==> power_of_two(x as int),
{
    lemma2_to64();
    if power_of_two(x as int) {
        let k = choose|k: nat| x as int == #[trigger] pow2(k);
        if k >= 31 {
            if k > 31 {
                lemma_pow2_strictly_increases(31, k);
            }
            assert(false);
        }
        assert(small_power_of_two(x));
    }
    if small_power_of_two(x) {
        assert(power_of_two(x as int));
    }
}

/// Tells whether `x` is a power of two. Zero and the negative numbers are not.
pub fn is_power_of_two(x: i32) -> (r: bool)
    ensures
        r == power_of_two(x as int),
{
    proof {
        lemma_small_power_of_two(x);
        assert((x > 0 && (x & ((x - 1) as i32)) == 0) <==> small_power_of_two(x)) by (bit_vector);
    }
    x > 0 && (x & (x - 1)) == 0
}

/// Of two powers of two, the larger is at least twice the smaller.
pub proof fn lemma_power_of_two_gap(p: int, q: int)
    requires
        power_of_two(p),
        power_of_two(q),
        p < q,
    ensures
        2 * p <= q,
{
    let a = choose|k: nat| p == #[trigger] pow2(k);
    let b = choose|k: nat| q == #[trigger] pow2(k);
    if a >= b {
        if a > b {
            lemma_pow2_strictly_increases(b, a);
        }
        assert(false);
    }
    lemma_pow2_unfold(a + 1);
    if a + 1 < b {
        lemma_pow2_strictly_increases(a + 1, b);
    }
}

/// The bits of `x` smeared to the right: every bit below the highest set bit
/// of `x` is set as well.
pub open spec fn smear(x: i32) -> i32 {
    let a = x | (x >> 1);
    let b = a | (a >> 2);
    let c = b | (b >> 4);
    let d = c | (c >> 8);
    d | (d >> 16)
}

/// The least power of two that is strictly greater than `x`, for `x >= 0`;
/// zero for a negative `x`.
///
/// The result must fit an `i32`, so `x` stays below `2^30`.
pub fn next_power_of_two(x: i32) -> (r: i32)
    requires
        x < 0x4000_0000,
    ensures
        x < 0 ==> r == 0,
        x >= 0 ==> power_of_two(r as int) && x < r,
        forall|p: int| x >= 0 && power_of_two(p) && x < p ==> r <= p,
{
    let mut r: i32 = x;
    r |= r >> 1;
    r |= r >> 2;
    r |= r >> 4;
    r |= r >> 8;
    r |= r >> 16;
    proof {
        assert(r == smear(x));
        assert(x < 0 ==> smear(x) == -1) by (bit_vector);
        assert(0 <= x < 0x4000_0000 ==> {
            &&& 0 <= smear(x) < 0x4000_0000
            &&& small_power_of_two((smear(x) + 1) as i32)
            &&& x <= smear(x)
            &&& (smear(x) + 1) / 2 <= x
        }) by (bit_vector);
        if x >= 0 {
            lemma_small_power_of_two((r + 1) as i32);
            assert forall|p: int| power_of_two(p) && x < p implies r + 1 <= p by {
                if p < r + 1 {
                    lemma_power_of_two_gap(p, r + 1);
                }
            }
        }
    }
    r + 1
}

/// `x` is greater than or equal to zero.
pub open spec fn not_negative<T: Scalar>(x: T) -> bool {
    x.partial_cmp_spec(&num::<T>(0)) matches Some(Ordering::Greater | Ordering::Equal)
}

/// The sign of `x` as a factor: 1 where `x` is greater than or equal to
/// zero, -1 otherwise.
pub fn sign<T: Scalar>(x: T) -> (r: T)
    ensures
        compares::<T>() && converts::<T>() ==> r == if not_negative(x) {
            num::<T>(1)
        } else {
            num::<T>(-1)
        },
{
    let zero: T = constant(0);
    if x >= zero {
        constant(1)
    } else {
        constant(-1)
    }
}

/// A transform that maps a point of type `T` to another point of that type.
pub trait TransformPoint<T> {
    /// The result of `transform_point` is what `transform_spec` says.
    spec fn obeys_transform_spec() -> bool;

    /// The operations of `transform_point` accept their operands.
    spec fn transform_req(&self, point: &T) -> bool;

    /// The image of `point`.
    spec fn transform_spec(&self, point: &T) -> T;

    /// Computes the image of `point`.
    fn transform_point(&self, point: &T) -> (r: T)
        requires
            self.transform_req(point),
        ensures
            Self::obeys_transform_spec() ==> r == self.transform_spec(point),
    ;
}

} // verus!
