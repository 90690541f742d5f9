//! Machine fractions: extended rationals held in 128-bit integers.
//!
//! A [`Fraction`] stands for exactly one [`Ratio`], its view. Every
//! operation returns the fraction whose view is the result of the same
//! operation on the views, with no rounding. What the machine limits is the
//! size of numerators and denominators: an operation asks that the widths
//! of its operands leave room for the result, and says how wide the result
//! can be.

use vstd::prelude::*;
use crate::ratio::Ratio;
use crate::width::{
    bits, lemma_bits_fit, lemma_negated_width, lemma_over_width, lemma_plus_width,
    lemma_quotient_width, lemma_times_width, lemma_width_limit, lemma_width_of_product, magnitude,
    MAX_WIDTH,
};

verus! {

#[derive(Clone, Copy, Debug)]
enum Repr {
    Undefined,
    PosInf,
    NegInf,
    Finite { num: i128, den: i128 },
}

/// An extended rational number in machine integers.
#[derive(Clone, Copy, Debug)]
pub struct Fraction {
    repr: Repr,
}

impl View for Fraction {
    type V = Ratio;

    closed spec fn view(&self) -> Ratio {
        match self.repr {
            Repr::Undefined => Ratio::Undefined,
            Repr::PosInf => Ratio::PosInf,
            Repr::NegInf => Ratio::NegInf,
            Repr::Finite { num, den } => Ratio::Finite { num: num as int, den: den as int },
        }
    }
}

impl Fraction {
    #[verifier::type_invariant]
    spec fn inv(self) -> bool {
        self@.wf() && self@.width() <= MAX_WIDTH
    }

    /// The fraction `num / den` for integers of at most 126 bits.
    fn quotient(num: i128, den: i128) -> (r: Fraction)
        requires
            bits(magnitude(num as int)) <= MAX_WIDTH,
            bits(magnitude(den as int)) <= MAX_WIDTH,
        ensures
            r@ == Ratio::quotient(num as int, den as int),
    {
        proof {
            lemma_width_limit(num as int, MAX_WIDTH as nat);
            lemma_width_limit(den as int, MAX_WIDTH as nat);
            lemma_quotient_width(num as int, den as int);
        }
        if den > 0 {
            Fraction { repr: Repr::Finite { num, den } }
        } else if den < 0 {
            Fraction { repr: Repr::Finite { num: -num, den: -den } }
        } else if num > 0 {
            Fraction { repr: Repr::PosInf }
        } else if num < 0 {
            Fraction { repr: Repr::NegInf }
        } else {
            Fraction { repr: Repr::Undefined }
        }
    }

    /// A byte sample as a fraction of full scale.
    pub fn from_sample(v: u8) -> (r: Fraction)
        ensures
            r@ == Ratio::from_sample(v),
            r@.wf(),
            r@.width() <= 8,
    {
        proof {
            vstd::arithmetic::power2::lemma2_to64();
            lemma_bits_fit(v as nat, 8);
            lemma_bits_fit(255, 8);
        }
        Fraction { repr: Repr::Finite { num: v as i128, den: 255 } }
    }

    /// The whole number `n`.
    pub fn whole(n: i8) -> (r: Fraction)
        ensures
            r@ == Ratio::whole(n as int),
            r@.wf(),
            r@.width() <= 8,
    {
        Fraction::constant(n, 1)
    }

    /// The constant `num / den`. A zero denominator gives an infinity of
    /// the numerator's sign, and `0/0` the undefined value.
    pub fn constant(num: i8, den: u8) -> (r: Fraction)
        ensures
            r@ == Ratio::quotient(num as int, den as int),
            r@.wf(),
            r@.width() <= 8,
    {
        proof {
            vstd::arithmetic::power2::lemma2_to64();
            lemma_bits_fit(magnitude(num as int), 8);
            lemma_bits_fit(den as nat, 8);
            lemma_quotient_width(num as int, den as int);
        }
        Fraction::quotient(num as i128, den as i128)
    }

    /// `-self`.
    pub fn negated(self) -> (r: Fraction)
        ensures
            r@ == self@.negated(),
            r@.wf(),
            r@.width() == self@.width(),
    {
        proof {
            use_type_invariant(self);
            lemma_negated_width(self@);
        }
        match self.repr {
            Repr::Undefined => Fraction { repr: Repr::Undefined },
            Repr::PosInf => Fraction { repr: Repr::NegInf },
            Repr::NegInf => Fraction { repr: Repr::PosInf },
            Repr::Finite { num, den } => {
                proof {
                    lemma_width_limit(num as int, MAX_WIDTH as nat);
                }
                Fraction { repr: Repr::Finite { num: -num, den } }
            },
        }
    }

    /// `self + rhs`, exactly.
    pub fn plus(self, rhs: Fraction) -> (r: Fraction)
        requires
            self@.width() + rhs@.width() < MAX_WIDTH,
        ensures
            r@ == self@.plus(rhs@),
            r@.wf(),
            r@.width() <= self@.width() + rhs@.width() + 1,
    {
        proof {
            use_type_invariant(self);
            use_type_invariant(rhs);
            lemma_plus_width(self@, rhs@);
        }
        match (self.repr, rhs.repr) {
            (Repr::Finite { num: a, den: b }, Repr::Finite { num: c, den: d }) => {
                proof {
                    let k = self@.width() + rhs@.width();
                    lemma_width_of_product(a as int, d as int);
                    lemma_width_of_product(c as int, b as int);
                    lemma_width_of_product(b as int, d as int);
                    lemma_width_limit(a * d, k);
                    lemma_width_limit(c * b, k);
                    lemma_width_limit(b * d, k);
                }
                Fraction { repr: Repr::Finite { num: a * d + c * b, den: b * d } }
            },
            (Repr::Undefined, _) => Fraction { repr: Repr::Undefined },
            (_, Repr::Undefined) => Fraction { repr: Repr::Undefined },
            (Repr::Finite { .. }, _) => rhs,
            (_, Repr::Finite { .. }) => self,
            (Repr::PosInf, Repr::PosInf) => self,
            (Repr::NegInf, Repr::NegInf) => self,
            _ => Fraction { repr: Repr::Undefined },
        }
    }

    /// `self - rhs`, exactly.
    pub fn minus(self, rhs: Fraction) -> (r: Fraction)
        requires
            self@.width() + rhs@.width() < MAX_WIDTH,
        ensures
            r@ == self@.minus(rhs@),
            r@.wf(),
            r@.width() <= self@.width() + rhs@.width() + 1,
    {
        self.plus(rhs.negated())
    }

    /// `self * rhs`, exactly.
    pub fn times(self, rhs: Fraction) -> (r: Fraction)
        requires
            self@.width() + rhs@.width() <= MAX_WIDTH,
        ensures
            r@ == self@.times(rhs@),
            r@.wf(),
            r@.width() <= self@.width() + rhs@.width(),
    {
        proof {
            use_type_invariant(self);
            use_type_invariant(rhs);
            lemma_times_width(self@, rhs@);
        }
        match (self.repr, rhs.repr) {
            (Repr::Finite { num: a, den: b }, Repr::Finite { num: c, den: d }) => {
                proof {
                    let k = self@.width() + rhs@.width();
                    lemma_width_of_product(a as int, c as int);
                    lemma_width_of_product(b as int, d as int);
                    lemma_width_limit(a * c, k);
                    lemma_width_limit(b * d, k);
                }
                Fraction { repr: Repr::Finite { num: a * c, den: b * d } }
            },
            (Repr::Undefined, _) => Fraction { repr: Repr::Undefined },
            (_, Repr::Undefined) => Fraction { repr: Repr::Undefined },
            _ => {
                let s: i8 = self.signum() * rhs.signum();
                if s > 0 {
                    Fraction { repr: Repr::PosInf }
                } else if s < 0 {
                    Fraction { repr: Repr::NegInf }
                } else {
                    Fraction { repr: Repr::Undefined }
                }
            },
        }
    }

    /// `self / rhs`, exactly.
    pub fn over(self, rhs: Fraction) -> (r: Fraction)
        requires
            self@.width() + rhs@.width() <= MAX_WIDTH,
        ensures
            r@ == self@.over(rhs@),
            r@.wf(),
            r@.width() <= self@.width() + rhs@.width(),
    {
        proof {
            use_type_invariant(self);
            use_type_invariant(rhs);
            lemma_over_width(self@, rhs@);
        }
        match (self.repr, rhs.repr) {
            (Repr::Finite { num: a, den: b }, Repr::Finite { num: c, den: d }) => {
                proof {
                    let k = self@.width() + rhs@.width();
                    lemma_width_of_product(a as int, d as int);
                    lemma_width_of_product(b as int, c as int);
                    lemma_width_limit(a * d, k);
                    lemma_width_limit(b * c, k);
                }
                Fraction::quotient(a * d, b * c)
            },
            (Repr::Undefined, _) => Fraction { repr: Repr::Undefined },
            (_, Repr::Undefined) => Fraction { repr: Repr::Undefined },
            (Repr::Finite { .. }, _) => Fraction { repr: Repr::Finite { num: 0, den: 1 } },
            (_, Repr::Finite { num: c, den: d }) => if c < 0 {
                self.negated()
            } else {
                self
            },
            _ => Fraction { repr: Repr::Undefined },
        }
    }

    /// `1 / self`, exactly.
    pub fn reciprocal(self) -> (r: Fraction)
        ensures
            r@ == self@.reciprocal(),
            r@.wf(),
            r@.width() <= self@.width() + 1,
    {
        proof {
            use_type_invariant(self);
        }
        match self.repr {
            Repr::Finite { num, den } => {
                proof {
                    lemma_quotient_width(den as int, num as int);
                }
                Fraction::quotient(den, num)
            },
            Repr::Undefined => Fraction { repr: Repr::Undefined },
            _ => Fraction { repr: Repr::Finite { num: 0, den: 1 } },
        }
    }

    /// -1, 0 or 1 as the value is negative, zero or positive; 0 for the
    /// undefined value.
    pub fn signum(self) -> (s: i8)
        ensures
            s == self@.sign(),
    {
        match self.repr {
            Repr::Undefined => 0,
            Repr::PosInf => 1,
            Repr::NegInf => -1,
            Repr::Finite { num, den } => if num > 0 {
                1
            } else if num < 0 {
                -1
            } else {
                0
            },
        }
    }

    /// Numerator and denominator of a finite value, the denominator
    /// positive; `None` for an infinity and for the undefined value.
    pub fn parts(self) -> (parts: Option<(i128, i128)>)
        ensures
            match parts {
                Some((num, den)) => self@ == (Ratio::Finite { num: num as int, den: den as int })
                    && den > 0,
                None => !(self@ is Finite),
            },
    {
        proof {
            use_type_invariant(self);
        }
        match self.repr {
            Repr::Finite { num, den } => Some((num, den)),
            _ => None,
        }
    }

    /// The byte that stands for the value: 255 times the value, truncated
    /// toward zero, modulo 256.
    pub fn to_byte(self) -> (byte: u8)
        requires
            self@.width() + 8 <= MAX_WIDTH,
        ensures
            byte == self@.to_byte(),
    {
        proof {
            use_type_invariant(self);
        }
        match self.repr {
            Repr::Undefined => 0,
            Repr::PosInf => 255,
            Repr::NegInf => 0,
            Repr::Finite { num, den } => {
                proof {
                    vstd::arithmetic::power2::lemma2_to64();
                    lemma_bits_fit(255, 8);
                    lemma_width_of_product(num as int, 255);
                    lemma_width_limit(num * 255, self@.width() + 8);
                    lemma_width_limit(den as int, MAX_WIDTH as nat);
                }
                let scaled: i128 = num * 255;
                if scaled >= 0 {
                    let whole: u128 = (scaled as u128) / (den as u128);
                    (whole % 256) as u8
                } else {
                    let whole: u128 = ((-scaled) as u128) / (den as u128);
                    let low: u16 = (whole % 256) as u16;
                    if low == 0 {
                        0
                    } else {
                        (256 - low) as u8
                    }
                }
            },
        }
    }
}

} // verus!
