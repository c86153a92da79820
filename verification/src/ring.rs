//! What the laws of this crate assume of the arithmetic of a component type,
//! and what follows from it.
//!
//! The contracts of the operations state a result for every component type
//! whose operations are exact. The laws that relate several operations need
//! more: that the operations behave as those of a commutative ring do. The
//! predicates here say so, the lemmas draw the consequences that the laws of
//! the vectors and matrices rest on, and the last lemmas show that the
//! integers of 32 and 64 bits fulfil the predicates.
use crate::scalar::exact;
use crate::scalar::less;
use crate::scalar::max_spec;
use crate::scalar::min_spec;
use crate::scalar::num;
use crate::scalar::Scalar;
use vstd::prelude::*;
use vstd::std_specs::ops::AddSpec;
use vstd::std_specs::ops::DivSpec;
use vstd::std_specs::ops::MulSpec;
use vstd::std_specs::ops::NegSpec;
use vstd::std_specs::ops::SubSpec;

verus! {

/// Addition and multiplication of `T` are those of a commutative ring, as
/// far as sums of products go: both are commutative and associative, and
/// multiplication distributes over addition.
#[verifier::opaque]
pub open spec fn ring_laws<T: Scalar>() -> bool {
    &&& forall|x: T, y: T| #[trigger] x.add_spec(y) == y.add_spec(x)
    &&& forall|x: T, y: T, z: T| #[trigger] x.add_spec(y).add_spec(z) == x.add_spec(y.add_spec(z))
    &&& forall|x: T, y: T| #[trigger] x.mul_spec(y) == y.mul_spec(x)
    &&& forall|x: T, y: T, z: T| #[trigger] x.mul_spec(y).mul_spec(z) == x.mul_spec(y.mul_spec(z))
    &&& forall|x: T, y: T, z: T| #[trigger]
        x.mul_spec(y.add_spec(z)) == x.mul_spec(y).add_spec(x.mul_spec(z))
}

/// Zero, one and the negatives of `T` are those of a ring: a difference is
/// the sum with the negative, a number and its negative add up to zero, zero
/// added to a number and one multiplied to it change nothing.
#[verifier::opaque]
pub open spec fn ring_units<T: Scalar>() -> bool {
    &&& forall|x: T, y: T| #[trigger] x.sub_spec(y) == x.add_spec(y.neg_spec())
    &&& forall|x: T| #[trigger] x.add_spec(x.neg_spec()) == num::<T>(0)
    &&& forall|x: T| #[trigger] x.add_spec(num::<T>(0)) == x
    &&& forall|x: T| #[trigger] x.mul_spec(num::<T>(1)) == x
}

/// The multiplication of `T` does not depend on the order of its factors.
pub open spec fn commutative_mul<T: Scalar>() -> bool {
    forall|x: T, y: T| #[trigger] x.mul_spec(y) == y.mul_spec(x)
}

/// Negating a difference exchanges its two numbers: `-(x - y) == y - x`.
pub open spec fn negation_turns_difference<T: Scalar>() -> bool {
    forall|x: T, y: T| (#[trigger] x.sub_spec(y)).neg_spec() == y.sub_spec(x)
}

/// Dividing a number by one changes nothing.
pub open spec fn division_by_one<T: Scalar>() -> bool {
    forall|x: T| #[trigger] x.div_spec(num::<T>(1)) == x
}

/// The numbers of `T` are in a line: of two different numbers exactly one is
/// less than the other, and no number is less than itself.
pub open spec fn strict_total_order<T: Scalar>() -> bool {
    &&& forall|a: T, b: T| #[trigger] less(a, b) ==> !less(b, a)
    &&& forall|a: T, b: T| !(#[trigger] less(a, b)) && !less(b, a) ==> a == b
}

/// Addition does not depend on the order of its two numbers.
pub proof fn lemma_add_commutative<T: Scalar>(x: T, y: T)
    requires
        ring_laws::<T>(),
    ensures
        x.add_spec(y) == y.add_spec(x),
{
    reveal(ring_laws);
}

/// Addition is associative: `(x + y) + z == x + (y + z)`.
pub proof fn lemma_add_associative<T: Scalar>(x: T, y: T, z: T)
    requires
        ring_laws::<T>(),
    ensures
        x.add_spec(y).add_spec(z) == x.add_spec(y.add_spec(z)),
{
    reveal(ring_laws);
}

/// A sum of two sums, taken crosswise: `(a + b) + (c + d) == (a + c) + (b + d)`.
pub proof fn lemma_medial<T: Scalar>(a: T, b: T, c: T, d: T)
    requires
        ring_laws::<T>(),
    ensures
        a.add_spec(b).add_spec(c.add_spec(d)) == a.add_spec(c).add_spec(b.add_spec(d)),
{
    reveal(ring_laws);
    assert(a.add_spec(b).add_spec(c.add_spec(d)) == a.add_spec(b.add_spec(c.add_spec(d))));
    assert(b.add_spec(c.add_spec(d)) == b.add_spec(c).add_spec(d));
    assert(b.add_spec(c) == c.add_spec(b));
    assert(c.add_spec(b).add_spec(d) == c.add_spec(b.add_spec(d)));
    assert(a.add_spec(c.add_spec(b.add_spec(d))) == a.add_spec(c).add_spec(b.add_spec(d)));
}

/// The last two of three numbers of a sum can change places:
/// `(x + y) + z == (x + z) + y`.
pub proof fn lemma_sum3_swap<T: Scalar>(x: T, y: T, z: T)
    requires
        ring_laws::<T>(),
    ensures
        x.add_spec(y).add_spec(z) == x.add_spec(z).add_spec(y),
{
    reveal(ring_laws);
    assert(x.add_spec(y).add_spec(z) == x.add_spec(y.add_spec(z)));
    assert(y.add_spec(z) == z.add_spec(y));
    assert(x.add_spec(z).add_spec(y) == x.add_spec(z.add_spec(y)));
}

/// A sum of three numbers can be turned round: `(x + y) + z == (z + x) + y`.
pub proof fn lemma_sum3_rotate<T: Scalar>(x: T, y: T, z: T)
    requires
        ring_laws::<T>(),
    ensures
        x.add_spec(y).add_spec(z) == z.add_spec(x).add_spec(y),
{
    reveal(ring_laws);
    assert(x.add_spec(y).add_spec(z) == z.add_spec(x.add_spec(y)));
    assert(z.add_spec(x).add_spec(y) == z.add_spec(x.add_spec(y)));
}

/// Multiplication does not depend on the order of its two factors.
pub proof fn lemma_mul_commutative<T: Scalar>(x: T, y: T)
    requires
        ring_laws::<T>(),
    ensures
        x.mul_spec(y) == y.mul_spec(x),
{
    reveal(ring_laws);
}

/// Multiplication is associative: `(x * y) * z == x * (y * z)`.
pub proof fn lemma_mul_associative<T: Scalar>(x: T, y: T, z: T)
    requires
        ring_laws::<T>(),
    ensures
        x.mul_spec(y).mul_spec(z) == x.mul_spec(y.mul_spec(z)),
{
    reveal(ring_laws);
}

/// The first two of three factors can change places:
/// `x * (y * z) == y * (x * z)`.
pub proof fn lemma_mul_swap<T: Scalar>(x: T, y: T, z: T)
    requires
        ring_laws::<T>(),
    ensures
        x.mul_spec(y.mul_spec(z)) == y.mul_spec(x.mul_spec(z)),
{
    lemma_mul_associative(x, y, z);
    lemma_mul_commutative(x, y);
    lemma_mul_associative(y, x, z);
}

/// The outer two of three factors can change places:
/// `x * (y * z) == z * (y * x)`.
pub proof fn lemma_mul_turn<T: Scalar>(x: T, y: T, z: T)
    requires
        ring_laws::<T>(),
    ensures
        x.mul_spec(y.mul_spec(z)) == z.mul_spec(y.mul_spec(x)),
{
    lemma_mul_commutative(x, y.mul_spec(z));
    lemma_mul_commutative(y, z);
    lemma_mul_associative(z, y, x);
}

/// Three factors can be turned round: `x * (y * z) == z * (x * y)`.
pub proof fn lemma_mul_rotate<T: Scalar>(x: T, y: T, z: T)
    requires
        ring_laws::<T>(),
    ensures
        x.mul_spec(y.mul_spec(z)) == z.mul_spec(x.mul_spec(y)),
{
    lemma_mul_associative(x, y, z);
    lemma_mul_commutative(x.mul_spec(y), z);
}

/// Multiplication distributes over addition from the left:
/// `c * (x + y) == c * x + c * y`.
pub proof fn lemma_distributes_left<T: Scalar>(c: T, x: T, y: T)
    requires
        ring_laws::<T>(),
    ensures
        c.mul_spec(x.add_spec(y)) == c.mul_spec(x).add_spec(c.mul_spec(y)),
{
    reveal(ring_laws);
}

/// Multiplication distributes over addition from the right too:
/// `(x + y) * c == x * c + y * c`.
pub proof fn lemma_distributes_right<T: Scalar>(x: T, y: T, c: T)
    requires
        ring_laws::<T>(),
    ensures
        x.add_spec(y).mul_spec(c) == x.mul_spec(c).add_spec(y.mul_spec(c)),
{
    reveal(ring_laws);
    assert(x.add_spec(y).mul_spec(c) == c.mul_spec(x.add_spec(y)));
    assert(c.mul_spec(x) == x.mul_spec(c));
    assert(c.mul_spec(y) == y.mul_spec(c));
}

/// A common last factor can be taken out of a sum of two products:
/// `x * (u * k) + y * (v * k) == (x * u + y * v) * k`.
pub proof fn lemma_factor_out<T: Scalar>(x: T, u: T, y: T, v: T, k: T)
    requires
        ring_laws::<T>(),
    ensures
        x.mul_spec(u.mul_spec(k)).add_spec(y.mul_spec(v.mul_spec(k))) == x.mul_spec(u).add_spec(
            y.mul_spec(v),
        ).mul_spec(k),
{
    lemma_mul_associative(x, u, k);
    lemma_mul_associative(y, v, k);
    lemma_distributes_right(x.mul_spec(u), y.mul_spec(v), k);
}

/// Zero added to a number, from either side, changes nothing, and the
/// negative of zero is zero.
pub proof fn lemma_zero<T: Scalar>(x: T)
    requires
        ring_laws::<T>(),
        ring_units::<T>(),
    ensures
        x.add_spec(num::<T>(0)) == x,
        num::<T>(0).add_spec(x) == x,
        num::<T>(0).neg_spec() == num::<T>(0),
{
    let o = num::<T>(0);
    assert(x.add_spec(o) == x) by {
        reveal(ring_units);
    }
    lemma_add_commutative(o, x);
    assert(o.add_spec(o) == o) by {
        reveal(ring_units);
    }
    lemma_neg_unique(o, o);
}

/// A number and its negative add up to zero, in either order.
pub proof fn lemma_cancel<T: Scalar>(x: T)
    requires
        ring_laws::<T>(),
        ring_units::<T>(),
    ensures
        x.add_spec(x.neg_spec()) == num::<T>(0),
        x.neg_spec().add_spec(x) == num::<T>(0),
{
    reveal(ring_units);
    lemma_add_commutative(x, x.neg_spec());
}

/// A number that adds up to zero with `x` is the negative of `x`.
pub proof fn lemma_neg_unique<T: Scalar>(x: T, y: T)
    requires
        ring_laws::<T>(),
        ring_units::<T>(),
        x.add_spec(y) == num::<T>(0),
    ensures
        y == x.neg_spec(),
{
    let o = num::<T>(0);
    let n = x.neg_spec();
    lemma_cancel(x);
    // y == y + (x + -x) == (y + x) + -x == 0 + -x == -x
    assert(y.add_spec(x.add_spec(n)) == y) by {
        reveal(ring_units);
    }
    assert(y.add_spec(x).add_spec(n) == y.add_spec(x.add_spec(n))) by {
        reveal(ring_laws);
    }
    lemma_add_commutative(y, x);
    lemma_add_commutative(o, n);
    assert(n.add_spec(o) == n) by {
        reveal(ring_units);
    }
}

/// The negative of the negative of a number is the number.
pub proof fn lemma_neg_neg<T: Scalar>(x: T)
    requires
        ring_laws::<T>(),
        ring_units::<T>(),
    ensures
        x.neg_spec().neg_spec() == x,
{
    lemma_cancel(x);
    lemma_neg_unique(x.neg_spec(), x);
}

/// The negative of a sum is the sum of the negatives.
pub proof fn lemma_neg_add<T: Scalar>(p: T, q: T)
    requires
        ring_laws::<T>(),
        ring_units::<T>(),
    ensures
        p.add_spec(q).neg_spec() == p.neg_spec().add_spec(q.neg_spec()),
{
    let o = num::<T>(0);
    lemma_medial(p, q, p.neg_spec(), q.neg_spec());
    lemma_cancel(p);
    lemma_cancel(q);
    lemma_zero(o);
    lemma_neg_unique(p.add_spec(q), p.neg_spec().add_spec(q.neg_spec()));
}

/// A difference is the sum with the negative: `x - y == x + (-y)`.
pub proof fn lemma_sub_is_add_neg<T: Scalar>(x: T, y: T)
    requires
        ring_units::<T>(),
    ensures
        x.sub_spec(y) == x.add_spec(y.neg_spec()),
{
    reveal(ring_units);
}

/// Negating a difference exchanges its two numbers: `-(q - p) == p - q`.
pub proof fn lemma_neg_sub<T: Scalar>(p: T, q: T)
    requires
        ring_laws::<T>(),
        ring_units::<T>(),
    ensures
        q.sub_spec(p).neg_spec() == p.sub_spec(q),
{
    let o = num::<T>(0);
    lemma_sub_is_add_neg(q, p);
    lemma_sub_is_add_neg(p, q);
    // (q + -p) + (p + -q) == (q + p) + (-p + -q) == (q + -q') ... == 0
    lemma_medial(q, p.neg_spec(), p, q.neg_spec());
    lemma_add_commutative(q, p);
    lemma_medial(p, q, p.neg_spec(), q.neg_spec());
    lemma_cancel(p);
    lemma_cancel(q);
    assert(o.add_spec(o) == o) by {
        reveal(ring_units);
    }
    lemma_neg_unique(q.sub_spec(p), p.sub_spec(q));
}

/// A number can be added before a subtraction or after it:
/// `(p - q) + r == p + (r - q)` and `(p + q) - r == p + (q - r)`.
pub proof fn lemma_add_sub<T: Scalar>(p: T, q: T, r: T)
    requires
        ring_laws::<T>(),
        ring_units::<T>(),
    ensures
        p.sub_spec(q).add_spec(r) == p.add_spec(r.sub_spec(q)),
        p.add_spec(q).sub_spec(r) == p.add_spec(q.sub_spec(r)),
{
    lemma_sub_is_add_neg(p, q);
    lemma_sub_is_add_neg(r, q);
    lemma_sub_is_add_neg(p.add_spec(q), r);
    lemma_sub_is_add_neg(q, r);
    lemma_sum3_swap(p, q.neg_spec(), r);
    assert(p.add_spec(r).add_spec(q.neg_spec()) == p.add_spec(r.add_spec(q.neg_spec()))) by {
        reveal(ring_laws);
    }
    assert(p.add_spec(q).add_spec(r.neg_spec()) == p.add_spec(q.add_spec(r.neg_spec()))) by {
        reveal(ring_laws);
    }
}

/// Two differences can exchange what they start from:
/// `(p - q) + (r - s) == (r - q) + (p - s)`.
pub proof fn lemma_minuends_exchange<T: Scalar>(p: T, q: T, r: T, s: T)
    requires
        ring_laws::<T>(),
        ring_units::<T>(),
    ensures
        p.sub_spec(q).add_spec(r.sub_spec(s)) == r.sub_spec(q).add_spec(p.sub_spec(s)),
{
    lemma_sub_is_add_neg(p, q);
    lemma_sub_is_add_neg(r, s);
    lemma_sub_is_add_neg(r, q);
    lemma_sub_is_add_neg(p, s);
    lemma_medial(p, q.neg_spec(), r, s.neg_spec());
    lemma_medial(r, q.neg_spec(), p, s.neg_spec());
    lemma_add_commutative(p, r);
}

/// Three differences, of which each takes away what another one brings, add
/// up to zero: `(a - b) + (b - c) + (c - a) == 0`.
pub proof fn lemma_differences_cancel<T: Scalar>(a: T, b: T, c: T)
    requires
        ring_laws::<T>(),
        ring_units::<T>(),
    ensures
        a.sub_spec(b).add_spec(b.sub_spec(c)).add_spec(c.sub_spec(a)) == num::<T>(0),
{
    let o = num::<T>(0);
    let (na, nb, nc) = (a.neg_spec(), b.neg_spec(), c.neg_spec());
    lemma_sub_is_add_neg(a, b);
    lemma_sub_is_add_neg(b, c);
    lemma_sub_is_add_neg(c, a);
    // (a + -b) + (b + -c) == (a + b) + (-b + -c)
    lemma_medial(a, nb, b, nc);
    // ((a + b) + (-b + -c)) + (c + -a) == ((a + b) + c) + ((-b + -c) + -a)
    lemma_medial(a.add_spec(b), nb.add_spec(nc), c, na);
    // (-b + -c) + -a == (-a + -b) + -c
    lemma_sum3_rotate(nb, nc, na);
    // ((a + b) + c) + ((-a + -b) + -c) == ((a + b) + (-a + -b)) + (c + -c)
    lemma_medial(a.add_spec(b), c, na.add_spec(nb), nc);
    lemma_medial(a, b, na, nb);
    lemma_cancel(a);
    lemma_cancel(b);
    lemma_cancel(c);
    assert(o.add_spec(o) == o) by {
        reveal(ring_units);
    }
}

/// Three differences can exchange what they take away:
/// `(a - b) + (c - d) + (e - f) == (e - d) + (a - f) + (c - b)`.
pub proof fn lemma_differences_exchange<T: Scalar>(a: T, b: T, c: T, d: T, e: T, f: T)
    requires
        ring_laws::<T>(),
        ring_units::<T>(),
    ensures
        a.sub_spec(b).add_spec(c.sub_spec(d)).add_spec(e.sub_spec(f)) == e.sub_spec(d).add_spec(
            a.sub_spec(f),
        ).add_spec(c.sub_spec(b)),
{
    let (nb, nd, nf) = (b.neg_spec(), d.neg_spec(), f.neg_spec());
    lemma_sub_is_add_neg(a, b);
    lemma_sub_is_add_neg(c, d);
    lemma_sub_is_add_neg(e, f);
    lemma_sub_is_add_neg(e, d);
    lemma_sub_is_add_neg(a, f);
    lemma_sub_is_add_neg(c, b);
    // the left side is ((a + c) + e) + ((-b + -d) + -f)
    lemma_medial(a, nb, c, nd);
    lemma_medial(a.add_spec(c), nb.add_spec(nd), e, nf);
    // the right side is ((e + a) + c) + ((-d + -f) + -b)
    lemma_medial(e, nd, a, nf);
    lemma_medial(e.add_spec(a), nd.add_spec(nf), c, nb);
    lemma_sum3_rotate(a, c, e);
    lemma_sum3_rotate(nd, nf, nb);
}

/// Zero times a number is zero, and the negative of a number times another
/// is the negative of their product.
pub proof fn lemma_neg_mul<T: Scalar>(x: T, y: T)
    requires
        ring_laws::<T>(),
        ring_units::<T>(),
    ensures
        num::<T>(0).mul_spec(y) == num::<T>(0),
        x.neg_spec().mul_spec(y) == x.mul_spec(y).neg_spec(),
        y.mul_spec(x.neg_spec()) == y.mul_spec(x).neg_spec(),
{
    reveal(ring_laws);
    reveal(ring_units);
    let o = num::<T>(0);
    assert(o.add_spec(o) == o);
    assert(y.mul_spec(o.add_spec(o)) == y.mul_spec(o).add_spec(y.mul_spec(o)));
    let z = y.mul_spec(o);
    assert(z.add_spec(z) == z);
    assert(z.add_spec(z).add_spec(z.neg_spec()) == z.add_spec(z.add_spec(z.neg_spec())));
    assert(z == o);
    assert(o.mul_spec(y) == o);
    assert(y.mul_spec(x.neg_spec().add_spec(x)) == y.mul_spec(x.neg_spec()).add_spec(
        y.mul_spec(x),
    ));
    assert(x.neg_spec().add_spec(x) == o);
    let a = x.neg_spec().mul_spec(y);
    let b = x.mul_spec(y);
    assert(a.add_spec(b) == o);
    assert(a.add_spec(b).add_spec(b.neg_spec()) == a.add_spec(b.add_spec(b.neg_spec())));
    assert(o.add_spec(b.neg_spec()) == b.neg_spec().add_spec(o));
}

/// Multiplication distributes over subtraction: `x * (p - q) == x * p - x * q`.
pub proof fn lemma_mul_sub<T: Scalar>(x: T, p: T, q: T)
    requires
        ring_laws::<T>(),
        ring_units::<T>(),
    ensures
        x.mul_spec(p.sub_spec(q)) == x.mul_spec(p).sub_spec(x.mul_spec(q)),
{
    lemma_sub_is_add_neg(p, q);
    lemma_distributes_left(x, p, q.neg_spec());
    lemma_neg_mul(q, x);
    lemma_sub_is_add_neg(x.mul_spec(p), x.mul_spec(q));
}

/// In a product of three factors the first two can change places, also
/// under a negation or against a negated third factor:
/// `b * (a * k) == a * (b * k)` and `b * (a * -k) == -(a * (b * k))`.
pub proof fn lemma_mul_swap_neg<T: Scalar>(a: T, b: T, k: T)
    requires
        ring_laws::<T>(),
        ring_units::<T>(),
    ensures
        b.mul_spec(a.mul_spec(k)) == a.mul_spec(b.mul_spec(k)),
        b.mul_spec(a.mul_spec(k)) == a.mul_spec(b.mul_spec(k)).neg_spec().neg_spec(),
        b.mul_spec(a.mul_spec(k.neg_spec())) == a.mul_spec(b.mul_spec(k)).neg_spec(),
        b.mul_spec(a.mul_spec(k.neg_spec())).neg_spec() == a.mul_spec(b.mul_spec(k)).neg_spec()
            .neg_spec(),
{
    lemma_mul_swap(b, a, k);
    lemma_neg_neg(a.mul_spec(b.mul_spec(k)));
    lemma_mul_swap(b, a, k.neg_spec());
    lemma_neg_mul(k, b);
    lemma_neg_mul(b.mul_spec(k), a);
}

/// In a commutative ring the multiplication is commutative, and negating a
/// difference exchanges its two numbers.
pub proof fn lemma_ring_commutes<T: Scalar>()
    requires
        ring_laws::<T>(),
        ring_units::<T>(),
    ensures
        commutative_mul::<T>(),
        negation_turns_difference::<T>(),
{
    assert forall|x: T, y: T| #[trigger] x.mul_spec(y) == y.mul_spec(x) by {
        lemma_mul_commutative(x, y);
    }
    assert forall|x: T, y: T| (#[trigger] x.sub_spec(y)).neg_spec() == y.sub_spec(x) by {
        lemma_neg_sub(y, x);
    }
}

/// In a strict total order the lesser and the greater of two numbers do not
/// depend on the order in which the two are given.
pub proof fn lemma_min_max_symmetric<T: Scalar>(a: T, b: T)
    requires
        strict_total_order::<T>(),
    ensures
        min_spec(a, b) == min_spec(b, a),
        max_spec(a, b) == max_spec(b, a),
{
    assert(less(a, b) ==> !less(b, a));
    assert(less(b, a) ==> !less(a, b));
    assert(!less(a, b) && !less(b, a) ==> a == b);
}

/// The wrapping arithmetic of `i32` satisfies the ring laws.
pub proof fn lemma_i32_ring()
    ensures
        ring_laws::<i32>(),
        ring_units::<i32>(),
{
    reveal(ring_laws);
    reveal(ring_units);
    assert forall|x: i32, y: i32| #[trigger] x.sub_spec(y) == x.add_spec(y.neg_spec()) by {
        assert((x - y) as i32 == (x + ((-y) as i32)) as i32) by (bit_vector);
    }
    assert forall|x: i32| #[trigger] x.add_spec(x.neg_spec()) == 0i32 by {
        assert((x + ((-x) as i32)) as i32 == 0i32) by (bit_vector);
    }
    assert forall|x: i32, y: i32| #[trigger] x.add_spec(y) == y.add_spec(x) by {
    }
    assert forall|x: i32, y: i32, z: i32| #[trigger]
        x.add_spec(y).add_spec(z) == x.add_spec(y.add_spec(z)) by {
        assert((((x + y) as i32) + z) as i32 == (x + ((y + z) as i32)) as i32) by (bit_vector);
    }
    assert forall|x: i32, y: i32| #[trigger] x.mul_spec(y) == y.mul_spec(x) by {
        assert(x * y == y * x) by (nonlinear_arith);
    }
    assert forall|x: i32, y: i32, z: i32| #[trigger]
        x.mul_spec(y).mul_spec(z) == x.mul_spec(y.mul_spec(z)) by {
        assert((((x * y) as i32) * z) as i32 == (x * ((y * z) as i32)) as i32) by (bit_vector);
    }
    assert forall|x: i32, y: i32, z: i32| #[trigger]
        x.mul_spec(y.add_spec(z)) == x.mul_spec(y).add_spec(x.mul_spec(z)) by {
        assert((x * ((y + z) as i32)) as i32 == (((x * y) as i32) + ((x * z) as i32)) as i32)
            by (bit_vector);
    }
}

/// The wrapping arithmetic of `i64` satisfies the ring laws.
pub proof fn lemma_i64_ring()
    ensures
        ring_laws::<i64>(),
        ring_units::<i64>(),
{
    reveal(ring_laws);
    reveal(ring_units);
    assert forall|x: i64, y: i64| #[trigger] x.sub_spec(y) == x.add_spec(y.neg_spec()) by {
        assert((x - y) as i64 == (x + ((-y) as i64)) as i64) by (bit_vector);
    }
    assert forall|x: i64| #[trigger] x.add_spec(x.neg_spec()) == 0i64 by {
        assert((x + ((-x) as i64)) as i64 == 0i64) by (bit_vector);
    }
    assert forall|x: i64, y: i64| #[trigger] x.add_spec(y) == y.add_spec(x) by {
    }
    assert forall|x: i64, y: i64, z: i64| #[trigger]
        x.add_spec(y).add_spec(z) == x.add_spec(y.add_spec(z)) by {
        assert((((x + y) as i64) + z) as i64 == (x + ((y + z) as i64)) as i64) by (bit_vector);
    }
    assert forall|x: i64, y: i64| #[trigger] x.mul_spec(y) == y.mul_spec(x) by {
        assert(x * y == y * x) by (nonlinear_arith);
    }
    assert forall|x: i64, y: i64, z: i64| #[trigger]
        x.mul_spec(y).mul_spec(z) == x.mul_spec(y.mul_spec(z)) by {
        assert((((x * y) as i64) * z) as i64 == (x * ((y * z) as i64)) as i64) by (bit_vector);
    }
    assert forall|x: i64, y: i64, z: i64| #[trigger]
        x.mul_spec(y.add_spec(z)) == x.mul_spec(y).add_spec(x.mul_spec(z)) by {
        assert((x * ((y + z) as i64)) as i64 == (((x * y) as i64) + ((x * z) as i64)) as i64)
            by (bit_vector);
    }
}

/// The arithmetic of `i32` is exact, its numbers are in a line, dividing
/// by one changes nothing, its multiplication is commutative, and negating a difference exchanges its two
/// numbers. The last two hold of results that wrap around too.
pub proof fn lemma_i32_arithmetic()
    ensures
        exact::<i32>(),
        strict_total_order::<i32>(),
        division_by_one::<i32>(),
        commutative_mul::<i32>(),
        negation_turns_difference::<i32>(),
{
    assert forall|x: i32, y: i32| (#[trigger] x.mul_spec(y)) == y.mul_spec(x) by {
        assert(x * y == y * x) by (nonlinear_arith);
    }
    assert forall|x: i32, y: i32| (#[trigger] x.sub_spec(y)).neg_spec() == y.sub_spec(x) by {
        assert((-((x - y) as i32)) as i32 == (y - x) as i32) by (bit_vector);
    }
}

/// The arithmetic of `i64` is exact, its numbers are in a line, dividing
/// by one changes nothing, its multiplication is commutative, and negating a difference exchanges its two
/// numbers. The last two hold of results that wrap around too.
pub proof fn lemma_i64_arithmetic()
    ensures
        exact::<i64>(),
        strict_total_order::<i64>(),
        division_by_one::<i64>(),
        commutative_mul::<i64>(),
        negation_turns_difference::<i64>(),
{
    assert forall|x: i64, y: i64| (#[trigger] x.mul_spec(y)) == y.mul_spec(x) by {
        assert(x * y == y * x) by (nonlinear_arith);
    }
    assert forall|x: i64, y: i64| (#[trigger] x.sub_spec(y)).neg_spec() == y.sub_spec(x) by {
        assert((-((x - y) as i64)) as i64 == (y - x) as i64) by (bit_vector);
    }
}

} // verus!
