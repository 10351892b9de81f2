//! Small arithmetic facts about integer multiplication and division that the
//! quantity conversions and the evaluation pipeline rely on.

use vstd::prelude::*;
use vstd::arithmetic::div_mod::{
    lemma_div_is_ordered, lemma_div_is_ordered_by_denominator, lemma_div_multiples_vanish,
    lemma_fundamental_div_mod, lemma_mod_bound,
};

verus! {

/// A product grows with its factors: bounds on both factors bound the product.
pub proof fn lemma_mul_le(a: int, a_max: int, b: int, b_max: int)
    by (nonlinear_arith)
    requires
        0 <= a <= a_max,
        0 <= b <= b_max,
    ensures
        a * b <= a_max * b_max,
{
}

/// A quotient grows with its numerator and shrinks with its denominator:
/// bounding the numerator from above and the denominator from below bounds
/// the quotient from above.
pub proof fn lemma_div_bound(a: int, a_max: int, d: int, d_min: int)
    requires
        0 <= a <= a_max,
        1 <= d_min <= d,
    ensures
        a / d <= a_max / d_min,
{
    lemma_div_is_ordered(a, a_max, d);
    lemma_div_is_ordered_by_denominator(a_max, d_min, d);
}

/// Division truncates downward: the quotient of `a / d` never exceeds the
/// quotient of any larger numerator by a smaller positive denominator, and a
/// numerator of at least `q * d` yields a quotient of at least `q`.
pub proof fn lemma_div_at_least(a: int, q: int, d: int)
    requires
        1 <= d,
        q * d <= a,
    ensures
        q <= a / d,
{
    lemma_div_is_ordered(q * d, a, d);
    lemma_div_multiples_vanish(q, d);
    assert(q * d == d * q) by (nonlinear_arith);
}

/// Strict monotonicity of truncating division in the denominator, for
/// denominators `c * m1 < c * m2` that share a positive factor `c`: as soon
/// as the numerator exceeds `c * m1 * m2`, one step of `m` changes the
/// quotient, so dividing by the smaller denominator gives a strictly larger
/// quotient.
pub proof fn lemma_div_strictly_ordered_by_denominator(a: int, c: int, m1: int, m2: int)
    requires
        1 <= c,
        1 <= m1 < m2,
        c * m1 * m2 < a,
    ensures
        a / (c * m2) < a / (c * m1),
{
    let d1 = c * m1;
    let d2 = c * m2;
    assert(1 <= d1 < d2) by (nonlinear_arith)
        requires
            d1 == c * m1,
            d2 == c * m2,
            1 <= c,
            1 <= m1 < m2,
    ;
    let q2 = a / d2;
    lemma_fundamental_div_mod(a, d2);
    lemma_mod_bound(a, d2);
    // a == d2 * q2 + (a % d2) with the remainder below d2, so from
    // c * m1 * m2 < a we get m1 < q2 + 1.
    assert(m1 <= q2) by (nonlinear_arith)
        requires
            a == d2 * q2 + (a % d2),
            0 <= a % d2 < d2,
            d2 == c * m2,
            c * m1 * m2 < a,
            1 <= c,
            1 <= m1 < m2,
    ;
    // Hence a >= (q2 + 1) * d1, so a / d1 >= q2 + 1 > q2 == a / d2.
    assert((q2 + 1) * d1 <= a) by (nonlinear_arith)
        requires
            a == d2 * q2 + (a % d2),
            0 <= a % d2,
            d1 == c * m1,
            d2 == c * m2,
            1 <= c,
            1 <= m1 < m2,
            m1 <= q2,
    ;
    lemma_div_at_least(a, q2 + 1, d1);
}

} // verus!
