//! How wide a fraction is: the bit lengths of its numerator and denominator.
//!
//! Exact arithmetic makes numerators and denominators grow. The width of a
//! value bounds them, and the laws of this file bound the width of every
//! result by the widths of the operands, so that a chain of operations can be
//! shown to stay inside 128-bit integers by adding small numbers.

use vstd::prelude::*;
use vstd::arithmetic::mul::*;
use vstd::arithmetic::power2::*;
use crate::ratio::Ratio;

verus! {

/// The number of binary digits of `n`; 0 for 0.
pub open spec fn bits(n: nat) -> nat
    decreases n,
{
    if n == 0 {
        0
    } else {
        1 + bits(n / 2)
    }
}

/// The absolute value of `i`.
pub open spec fn magnitude(i: int) -> nat {
    if i < 0 {
        (-i) as nat
    } else {
        i as nat
    }
}

impl Ratio {
    /// The greater bit length of numerator and denominator; 0 for a value
    /// that is not finite. Machine arithmetic on fractions is exact as long
    /// as the widths of the operands stay small enough.
    pub open spec fn width(self) -> nat {
        match self {
            Ratio::Finite { num, den } => if bits(magnitude(num)) >= bits(magnitude(den)) {
                bits(magnitude(num))
            } else {
                bits(magnitude(den))
            },
            _ => 0,
        }
    }
}

/// `n` is below two to the power of its bit length.
pub proof fn lemma_bits_bound(n: nat)
    ensures
        n < pow2(bits(n)),
    decreases n,
{
    if n == 0 {
        lemma_pow2_pos(0);
    } else {
        lemma_bits_bound(n / 2);
        lemma_pow2_unfold(bits(n));
    }
}

/// A number below `2^k` has at most `k` binary digits.
pub proof fn lemma_bits_fit(n: nat, k: nat)
    requires
        n < pow2(k),
    ensures
        bits(n) <= k,
    decreases k,
{
    if n != 0 {
        if k == 0 {
            lemma2_to64();
        } else {
            lemma_pow2_unfold(k);
            lemma_bits_fit(n / 2, (k - 1) as nat);
        }
    }
}

/// The bit length of a product is at most the sum of the bit lengths.
pub proof fn lemma_bits_product(a: nat, b: nat)
    ensures
        bits(a * b) <= bits(a) + bits(b),
        a * b < pow2(bits(a) + bits(b)),
{
    lemma_bits_bound(a);
    lemma_bits_bound(b);
    lemma_pow2_adds(bits(a), bits(b));
    let pa = pow2(bits(a));
    let pb = pow2(bits(b));
    assert(a * b < pa * pb) by (nonlinear_arith)
        requires
            a < pa,
            b < pb,
    ;
    lemma_bits_fit(a * b, bits(a) + bits(b));
}

/// The bit length of a sum is at most one more than the greater bit length.
pub proof fn lemma_bits_sum(a: nat, b: nat, k: nat)
    requires
        bits(a) <= k,
        bits(b) <= k,
    ensures
        bits(a + b) <= k + 1,
        a + b < pow2(k + 1),
{
    lemma_bits_bound(a);
    lemma_bits_bound(b);
    if bits(a) < k {
        lemma_pow2_strictly_increases(bits(a), k);
    }
    if bits(b) < k {
        lemma_pow2_strictly_increases(bits(b), k);
    }
    lemma_pow2_unfold(k + 1);
    lemma_bits_fit(a + b, k + 1);
}

/// The product of two integers is as long as the factors together at most.
pub proof fn lemma_width_of_product(x: int, y: int)
    ensures
        magnitude(x * y) == magnitude(x) * magnitude(y),
        bits(magnitude(x * y)) <= bits(magnitude(x)) + bits(magnitude(y)),
        magnitude(x * y) < pow2(bits(magnitude(x)) + bits(magnitude(y))),
{
    assert(magnitude(x * y) == magnitude(x) * magnitude(y)) by (nonlinear_arith);
    lemma_bits_product(magnitude(x), magnitude(y));
}

/// Two to the power of `k` grows with `k`.
pub proof fn lemma_pow2_monotonic(j: nat, k: nat)
    requires
        j <= k,
    ensures
        pow2(j) <= pow2(k),
{
    if j < k {
        lemma_pow2_strictly_increases(j, k);
    }
}

/// Bit length grows with the number.
pub proof fn lemma_bits_monotonic(a: nat, b: nat)
    requires
        a <= b,
    ensures
        bits(a) <= bits(b),
{
    lemma_bits_bound(b);
    lemma_bits_fit(a, bits(b));
}

/// The greatest width that a machine fraction may have.
pub const MAX_WIDTH: u32 = 126;

/// `2^126`, which every numerator and denominator of a machine fraction
/// stays below.
pub open spec fn width_limit() -> int {
    0x4000_0000_0000_0000_0000_0000_0000_0000
}

/// An integer of at most `k <= 126` bits lies strictly between
/// `-2^126` and `2^126`.
pub proof fn lemma_width_limit(x: int, k: nat)
    requires
        bits(magnitude(x)) <= k,
        k <= MAX_WIDTH,
    ensures
        -width_limit() < x < width_limit(),
        magnitude(x) < pow2(k),
{
    lemma_bits_bound(magnitude(x));
    lemma_pow2_monotonic(bits(magnitude(x)), k);
    lemma_pow2_monotonic(k, 126);
    lemma2_to64_rest();
    lemma_pow2_adds(63, 63);
}

/// Negation keeps well-formedness and width.
pub proof fn lemma_negated_width(a: Ratio)
    requires
        a.wf(),
    ensures
        a.negated().wf(),
        a.negated().width() == a.width(),
{
}

/// A sum is well formed and at most one bit wider than its operands together.
pub proof fn lemma_plus_width(a: Ratio, b: Ratio)
    requires
        a.wf(),
        b.wf(),
    ensures
        a.plus(b).wf(),
        a.plus(b).width() <= a.width() + b.width() + 1,
{
    if let (Ratio::Finite { num: n1, den: d1 }, Ratio::Finite { num: n2, den: d2 }) = (a, b) {
        lemma_width_of_product(n1, d2);
        lemma_width_of_product(n2, d1);
        lemma_width_of_product(d1, d2);
        lemma_mul_strictly_positive(d1, d2);
        let k = a.width() + b.width();
        lemma_bits_sum(magnitude(n1 * d2), magnitude(n2 * d1), k);
        assert(magnitude(n1 * d2 + n2 * d1) <= magnitude(n1 * d2) + magnitude(n2 * d1));
        lemma_bits_monotonic(
            magnitude(n1 * d2 + n2 * d1),
            magnitude(n1 * d2) + magnitude(n2 * d1),
        );
    }
}

/// A difference is well formed and at most one bit wider than its operands together.
pub proof fn lemma_minus_width(a: Ratio, b: Ratio)
    requires
        a.wf(),
        b.wf(),
    ensures
        a.minus(b).wf(),
        a.minus(b).width() <= a.width() + b.width() + 1,
{
    lemma_negated_width(b);
    lemma_plus_width(a, b.negated());
}

/// A product is well formed and at most as wide as its operands together.
pub proof fn lemma_times_width(a: Ratio, b: Ratio)
    requires
        a.wf(),
        b.wf(),
    ensures
        a.times(b).wf(),
        a.times(b).width() <= a.width() + b.width(),
{
    if let (Ratio::Finite { num: n1, den: d1 }, Ratio::Finite { num: n2, den: d2 }) = (a, b) {
        lemma_width_of_product(n1, n2);
        lemma_width_of_product(d1, d2);
        lemma_mul_strictly_positive(d1, d2);
    }
}

/// A quotient of any two integers is well formed and as wide as the wider of them.
pub proof fn lemma_quotient_width(num: int, den: int)
    ensures
        Ratio::quotient(num, den).wf(),
        Ratio::quotient(num, den).width() <= if bits(magnitude(num)) >= bits(magnitude(den)) {
            bits(magnitude(num))
        } else {
            bits(magnitude(den))
        },
{
}

/// A quotient is well formed and at most as wide as its operands together.
pub proof fn lemma_over_width(a: Ratio, b: Ratio)
    requires
        a.wf(),
        b.wf(),
    ensures
        a.over(b).wf(),
        a.over(b).width() <= a.width() + b.width(),
{
    if let (Ratio::Finite { num: n1, den: d1 }, Ratio::Finite { num: n2, den: d2 }) = (a, b) {
        lemma_width_of_product(n1, d2);
        lemma_width_of_product(d1, n2);
        lemma_quotient_width(n1 * d2, d1 * n2);
    } else {
        lemma_negated_width(a);
        reveal_with_fuel(bits, 2);
    }
}

} // verus!
