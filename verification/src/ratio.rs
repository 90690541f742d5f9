//! The mathematical model of the arithmetic: rational numbers extended by
//! two infinities and an undefined value.
//!
//! Every index formula is a quotient of sums of band fractions, so its value
//! is a rational number wherever no divisor vanishes. Where one does, the
//! value is carried on as an infinity or as `Undefined`, and only the last
//! step, [`Ratio::to_byte`], decides what byte such a value becomes.

use vstd::prelude::*;
use vstd::arithmetic::div_mod::*;
use vstd::arithmetic::mul::*;

verus! {

/// An extended rational number. Zero carries no sign, so a nonzero value
/// divided by zero takes the sign of the dividend.
pub enum Ratio {
    /// No value: `0/0`, `inf - inf`, `0 * inf`, `inf / inf`.
    Undefined,
    /// Greater than every rational number.
    PosInf,
    /// Less than every rational number.
    NegInf,
    /// The rational number `num / den`. Well formed when `den > 0`.
    Finite { num: int, den: int },
}

impl Ratio {
    /// The denominator of a finite value is positive.
    pub open spec fn wf(self) -> bool {
        self matches Ratio::Finite { num, den } ==> den > 0
    }

    /// The whole number `n`.
    pub open spec fn whole(n: int) -> Ratio {
        Ratio::Finite { num: n, den: 1 }
    }

    /// A byte sample as a fraction of full scale: `v / 255`.
    pub open spec fn from_sample(v: u8) -> Ratio {
        Ratio::Finite { num: v as int, den: 255 }
    }

    /// `num / den` for any integers: the sign is moved into the numerator,
    /// and a zero denominator gives an infinity of the numerator's sign, or
    /// `Undefined` for `0/0`.
    pub open spec fn quotient(num: int, den: int) -> Ratio {
        if den > 0 {
            Ratio::Finite { num, den }
        } else if den < 0 {
            Ratio::Finite { num: -num, den: -den }
        } else if num > 0 {
            Ratio::PosInf
        } else if num < 0 {
            Ratio::NegInf
        } else {
            Ratio::Undefined
        }
    }

    /// -1, 0 or 1 as the value is negative, zero or positive; 0 for `Undefined`.
    pub open spec fn sign(self) -> int {
        match self {
            Ratio::Undefined => 0,
            Ratio::PosInf => 1,
            Ratio::NegInf => -1,
            Ratio::Finite { num, den } => if num > 0 {
                1
            } else if num < 0 {
                -1
            } else {
                0
            },
        }
    }

    /// The infinity of the given sign; `Undefined` for sign 0.
    pub open spec fn infinity(sign: int) -> Ratio {
        if sign > 0 {
            Ratio::PosInf
        } else if sign < 0 {
            Ratio::NegInf
        } else {
            Ratio::Undefined
        }
    }

    /// `-self`.
    pub open spec fn negated(self) -> Ratio {
        match self {
            Ratio::Undefined => Ratio::Undefined,
            Ratio::PosInf => Ratio::NegInf,
            Ratio::NegInf => Ratio::PosInf,
            Ratio::Finite { num, den } => Ratio::Finite { num: -num, den },
        }
    }

    /// `self + rhs`. Infinities of opposite sign have no sum.
    pub open spec fn plus(self, rhs: Ratio) -> Ratio {
        match (self, rhs) {
            (Ratio::Finite { num: a, den: b }, Ratio::Finite { num: c, den: d }) => Ratio::Finite {
                num: a * d + c * b,
                den: b * d,
            },
            (Ratio::Undefined, _) => Ratio::Undefined,
            (_, Ratio::Undefined) => Ratio::Undefined,
            (Ratio::Finite { .. }, _) => rhs,
            (_, Ratio::Finite { .. }) => self,
            _ => if self == rhs {
                self
            } else {
                Ratio::Undefined
            },
        }
    }

    /// `self - rhs`.
    pub open spec fn minus(self, rhs: Ratio) -> Ratio {
        self.plus(rhs.negated())
    }

    /// `self * rhs`. Zero times an infinity has no value.
    pub open spec fn times(self, rhs: Ratio) -> Ratio {
        match (self, rhs) {
            (Ratio::Finite { num: a, den: b }, Ratio::Finite { num: c, den: d }) => Ratio::Finite {
                num: a * c,
                den: b * d,
            },
            (Ratio::Undefined, _) => Ratio::Undefined,
            (_, Ratio::Undefined) => Ratio::Undefined,
            _ => Ratio::infinity(self.sign() * rhs.sign()),
        }
    }

    /// `self / rhs`. A finite value over an infinity is zero; a nonzero
    /// value over zero is the infinity of its sign; `0/0` and `inf/inf` have
    /// no value.
    pub open spec fn over(self, rhs: Ratio) -> Ratio {
        match (self, rhs) {
            (Ratio::Finite { num: a, den: b }, Ratio::Finite { num: c, den: d }) => Ratio::quotient(
                a * d,
                b * c,
            ),
            (Ratio::Undefined, _) => Ratio::Undefined,
            (_, Ratio::Undefined) => Ratio::Undefined,
            (Ratio::Finite { .. }, _) => Ratio::whole(0),
            (_, Ratio::Finite { num: c, den: d }) => if c < 0 {
                self.negated()
            } else {
                self
            },
            _ => Ratio::Undefined,
        }
    }

    /// `1 / self`.
    pub open spec fn reciprocal(self) -> Ratio {
        Ratio::whole(1).over(self)
    }

    /// The integer part of a finite value, rounded toward zero.
    pub open spec fn truncated(self) -> int
        recommends
            self is Finite,
            self.wf(),
    {
        match self {
            Ratio::Finite { num, den } => if num >= 0 {
                num / den
            } else {
                -((-num) / den)
            },
            _ => 0,
        }
    }

    /// The byte that stands for the value: `255 * self`, truncated toward
    /// zero and then reduced modulo 256, so that a result outside `0..=255`
    /// wraps round instead of being clamped. The infinities give the ends
    /// of the byte range, 255 and 0, and `Undefined` gives 0.
    pub open spec fn to_byte(self) -> int {
        match self {
            Ratio::Undefined => 0,
            Ratio::PosInf => 255,
            Ratio::NegInf => 0,
            Ratio::Finite { .. } => self.times(Ratio::whole(255)).truncated() % 256,
        }
    }

    /// Whether the two stand for the same number: finite fractions of equal
    /// value, the same infinity, or both undefined.
    pub open spec fn same_value(self, other: Ratio) -> bool {
        match (self, other) {
            (Ratio::Finite { num: a, den: b }, Ratio::Finite { num: c, den: d }) => a * d == c * b,
            _ => self == other,
        }
    }
}

/// The byte of a value is a byte.
pub proof fn lemma_to_byte_range(r: Ratio)
    ensures
        0 <= r.to_byte() < 256,
{
}

/// A sample survives the round trip: the byte of the fraction of full
/// scale that stands for `v` is `v`.
pub proof fn lemma_sample_round_trip(v: u8)
    ensures
        Ratio::from_sample(v).to_byte() == v,
{
    lemma_div_multiples_vanish(v as int, 255);
}

/// Truncation sees the value, not the fraction that holds it: a factor
/// common to numerator and denominator changes nothing.
pub proof fn lemma_truncated_scale(num: int, den: int, k: int)
    requires
        den > 0,
        k > 0,
    ensures
        k * den > 0,
        (Ratio::Finite { num: k * num, den: k * den }).truncated() == (Ratio::Finite {
            num,
            den,
        }).truncated(),
{
    lemma_mul_strictly_positive(k, den);
    if num >= 0 {
        lemma_mul_nonnegative(k, num);
        lemma_div_multiples_vanish_quotient(k, num, den);
    } else {
        assert(k * num < 0 && -(k * num) == k * (-num)) by (nonlinear_arith)
            requires
                k > 0,
                num < 0,
        ;
        lemma_div_multiples_vanish_quotient(k, -num, den);
    }
}

/// The byte of a fraction does not change when numerator and denominator
/// are multiplied by the same positive number.
pub proof fn lemma_to_byte_scale(num: int, den: int, k: int)
    requires
        den > 0,
        k > 0,
    ensures
        (Ratio::Finite { num: k * num, den: k * den }).to_byte() == (Ratio::Finite {
            num,
            den,
        }).to_byte(),
{
    lemma_truncated_scale(num * 255, den * 1, k);
    assert((k * num) * 255 == k * (num * 255)) by (nonlinear_arith);
    assert((k * den) * 1 == k * (den * 1)) by (nonlinear_arith);
}

/// Two fractions that stand for the same rational number have the same
/// byte: `n1 / d1 == n2 / d2` exactly when `n1 * d2 == n2 * d1`.
pub proof fn lemma_to_byte_of_equal_values(n1: int, d1: int, n2: int, d2: int)
    requires
        d1 > 0,
        d2 > 0,
        n1 * d2 == n2 * d1,
    ensures
        (Ratio::Finite { num: n1, den: d1 }).to_byte() == (Ratio::Finite {
            num: n2,
            den: d2,
        }).to_byte(),
{
    lemma_to_byte_scale(n1, d1, d2);
    lemma_to_byte_scale(n2, d2, d1);
    lemma_mul_is_commutative(d2, n1);
    lemma_mul_is_commutative(d1, n2);
    lemma_mul_is_commutative(d1, d2);
}

/// Where 255 times the value lies in `0 <= .. < 256`, its byte is that
/// product rounded down: nothing wraps.
pub proof fn lemma_to_byte_in_range(num: int, den: int)
    requires
        den > 0,
        0 <= 255 * num < 256 * den,
    ensures
        (Ratio::Finite { num, den }).to_byte() == (255 * num) / den,
{
    lemma_multiply_divide_lt(255 * num, den, 256);
    lemma_div_pos_is_pos(255 * num, den);
}

/// Values that are the same number have the same byte.
pub proof fn lemma_same_value_same_byte(a: Ratio, b: Ratio)
    requires
        a.wf(),
        b.wf(),
        a.same_value(b),
    ensures
        a.to_byte() == b.to_byte(),
{
    if let (Ratio::Finite { num: n1, den: d1 }, Ratio::Finite { num: n2, den: d2 }) = (a, b) {
        lemma_to_byte_of_equal_values(n1, d1, n2, d2);
    }
}

/// Being the same number is an equivalence on well-formed values.
pub proof fn lemma_same_value_is_an_equivalence(a: Ratio, b: Ratio, c: Ratio)
    requires
        a.wf(),
        b.wf(),
        c.wf(),
    ensures
        a.same_value(a),
        a.same_value(b) ==> b.same_value(a),
        a.same_value(b) && b.same_value(c) ==> a.same_value(c),
{
    if let (
        Ratio::Finite { num: n1, den: d1 },
        Ratio::Finite { num: n2, den: d2 },
        Ratio::Finite { num: n3, den: d3 },
    ) = (a, b, c) {
        if a.same_value(b) && b.same_value(c) {
            assert(n1 * d3 == n3 * d1) by (nonlinear_arith)
                requires
                    n1 * d2 == n2 * d1,
                    n2 * d3 == n3 * d2,
                    d2 > 0,
            {
                assert((n1 * d3) * d2 == (n1 * d2) * d3);
                assert((n2 * d1) * d3 == (n2 * d3) * d1);
                assert((n3 * d2) * d1 == (n3 * d1) * d2);
            }
        }
    }
}

/// Values that are the same number have the same sign.
pub proof fn lemma_same_value_same_sign(a: Ratio, b: Ratio)
    requires
        a.wf(),
        b.wf(),
        a.same_value(b),
    ensures
        a.sign() == b.sign(),
{
    if let (Ratio::Finite { num: n1, den: d1 }, Ratio::Finite { num: n2, den: d2 }) = (a, b) {
        assert((n1 > 0 <==> n2 > 0) && (n1 < 0 <==> n2 < 0)) by (nonlinear_arith)
            requires
                n1 * d2 == n2 * d1,
                d1 > 0,
                d2 > 0,
        ;
    }
}

/// The negations of the same number are the same number.
pub proof fn lemma_negated_same_value(a: Ratio, b: Ratio)
    requires
        a.same_value(b),
    ensures
        a.negated().same_value(b.negated()),
{
    if let (Ratio::Finite { num: n1, den: d1 }, Ratio::Finite { num: n2, den: d2 }) = (a, b) {
        assert((-n1) * d2 == (-n2) * d1) by (nonlinear_arith)
            requires
                n1 * d2 == n2 * d1,
        ;
    }
}

/// Sums of the same numbers are the same number.
pub proof fn lemma_plus_same_value(a: Ratio, a2: Ratio, b: Ratio, b2: Ratio)
    requires
        a.same_value(a2),
        b.same_value(b2),
    ensures
        a.plus(b).same_value(a2.plus(b2)),
{
    if let (
        Ratio::Finite { num: n, den: d },
        Ratio::Finite { num: n2, den: d2 },
        Ratio::Finite { num: m, den: e },
        Ratio::Finite { num: m2, den: e2 },
    ) = (a, a2, b, b2) {
        assert((n * e + m * d) * (d2 * e2) == (n2 * e2 + m2 * d2) * (d * e)) by (nonlinear_arith)
            requires
                n * d2 == n2 * d,
                m * e2 == m2 * e,
        {
            assert((n * e) * (d2 * e2) == (n * d2) * (e * e2));
            assert((n2 * e2) * (d * e) == (n2 * d) * (e * e2));
            assert((m * d) * (d2 * e2) == (m * e2) * (d * d2));
            assert((m2 * d2) * (d * e) == (m2 * e) * (d * d2));
        }
    }
}

/// Differences of the same numbers are the same number.
pub proof fn lemma_minus_same_value(a: Ratio, a2: Ratio, b: Ratio, b2: Ratio)
    requires
        a.same_value(a2),
        b.same_value(b2),
    ensures
        a.minus(b).same_value(a2.minus(b2)),
{
    lemma_negated_same_value(b, b2);
    lemma_plus_same_value(a, a2, b.negated(), b2.negated());
}

/// Products of the same numbers are the same number.
pub proof fn lemma_times_same_value(a: Ratio, a2: Ratio, b: Ratio, b2: Ratio)
    requires
        a.wf(),
        a2.wf(),
        b.wf(),
        b2.wf(),
        a.same_value(a2),
        b.same_value(b2),
    ensures
        a.times(b).same_value(a2.times(b2)),
{
    lemma_same_value_same_sign(a, a2);
    lemma_same_value_same_sign(b, b2);
    if let (
        Ratio::Finite { num: n, den: d },
        Ratio::Finite { num: n2, den: d2 },
        Ratio::Finite { num: m, den: e },
        Ratio::Finite { num: m2, den: e2 },
    ) = (a, a2, b, b2) {
        assert((n * m) * (d2 * e2) == (n2 * m2) * (d * e)) by (nonlinear_arith)
            requires
                n * d2 == n2 * d,
                m * e2 == m2 * e,
        {
            assert((n * m) * (d2 * e2) == (n * d2) * (m * e2));
            assert((n2 * m2) * (d * e) == (n2 * d) * (m2 * e));
        }
    }
}

/// Quotients of the same numbers are the same number.
pub proof fn lemma_over_same_value(a: Ratio, a2: Ratio, b: Ratio, b2: Ratio)
    requires
        a.wf(),
        a2.wf(),
        b.wf(),
        b2.wf(),
        a.same_value(a2),
        b.same_value(b2),
    ensures
        a.over(b).same_value(a2.over(b2)),
{
    lemma_same_value_same_sign(a, a2);
    lemma_same_value_same_sign(b, b2);
    lemma_negated_same_value(a, a2);
    if let (
        Ratio::Finite { num: n, den: d },
        Ratio::Finite { num: n2, den: d2 },
        Ratio::Finite { num: m, den: e },
        Ratio::Finite { num: m2, den: e2 },
    ) = (a, a2, b, b2) {
        // The quotients are (n e) / (d m) and (n2 e2) / (d2 m2).
        assert((d * m > 0 <==> m > 0) && (d * m < 0 <==> m < 0)) by (nonlinear_arith)
            requires
                d > 0,
        ;
        assert((d2 * m2 > 0 <==> m2 > 0) && (d2 * m2 < 0 <==> m2 < 0)) by (nonlinear_arith)
            requires
                d2 > 0,
        ;
        assert((n * e > 0 <==> n > 0) && (n * e < 0 <==> n < 0)) by (nonlinear_arith)
            requires
                e > 0,
        ;
        assert((n2 * e2 > 0 <==> n2 > 0) && (n2 * e2 < 0 <==> n2 < 0)) by (nonlinear_arith)
            requires
                e2 > 0,
        ;
        assert((n * e) * (d2 * m2) == (n2 * e2) * (d * m)) by (nonlinear_arith)
            requires
                n * d2 == n2 * d,
                m * e2 == m2 * e,
        {
            assert((n * e) * (d2 * m2) == (n * d2) * (m2 * e));
            assert((n2 * e2) * (d * m) == (n2 * d) * (m * e2));
        }
        assert((-(n * e)) * (-(d2 * m2)) == (-(n2 * e2)) * (-(d * m))) by (nonlinear_arith)
            requires
                (n * e) * (d2 * m2) == (n2 * e2) * (d * m),
        ;
    }
}

/// A factor common to both integers does not change their quotient.
pub proof fn lemma_quotient_scale(num: int, den: int, k: int)
    requires
        k > 0,
    ensures
        Ratio::quotient(k * num, k * den).same_value(Ratio::quotient(num, den)),
        Ratio::quotient(k * num, k * den).to_byte() == Ratio::quotient(num, den).to_byte(),
{
    assert((k * den > 0 <==> den > 0) && (k * den < 0 <==> den < 0) && (k * num > 0 <==> num > 0)
        && (k * num < 0 <==> num < 0)) by (nonlinear_arith)
        requires
            k > 0,
    ;
    assert((k * num) * den == num * (k * den)) by (nonlinear_arith);
    assert((-(k * num)) * (-den) == (-num) * (-(k * den))) by (nonlinear_arith);
    lemma_same_value_same_byte(Ratio::quotient(k * num, k * den), Ratio::quotient(num, den));
}

/// The byte of a quotient of two integers, in integer division: for a
/// positive divisor, `255 num / den` rounded toward zero, modulo 256.
pub proof fn lemma_quotient_byte(num: int, den: int)
    ensures
        Ratio::quotient(num, den).to_byte() == if den > 0 {
            if num >= 0 {
                ((255 * num) / den) % 256
            } else {
                (-((255 * -num) / den)) % 256
            }
        } else if den < 0 {
            if num <= 0 {
                ((255 * -num) / (-den)) % 256
            } else {
                (-((255 * num) / (-den))) % 256
            }
        } else if num > 0 {
            255
        } else {
            0
        },
{
}

} // verus!
