//! Each index as one quotient of two integers.
//!
//! Cleared of fractions, the formula of every index is a quotient of two
//! integer polynomials in the samples. That quotient is the same number as
//! the value of the formula, also where a divisor vanishes: the laws of this
//! file prove it index by index. With [`lemma_quotient_byte`] they give the
//! byte of each index in integer division.

use vstd::prelude::*;
use crate::indices::{
    afri1600_value, afri2100_value, ari_value, arvi2_value, atsavi_value, avi_value, bri_value,
    chlgreen_value, chlrededge_value, cigreen_value, cirededge_value, evi_value, gndvi_value,
    msi_value, ndbi_value, ndmi_value, ndvi_value, ndwi_value,
};
use crate::ratio::{lemma_quotient_scale, lemma_same_value_same_byte, Ratio};
use crate::registry::Index;

verus! {

/// The normalised difference of two samples: `(p - q) / (p + q)`.
pub open spec fn normalized_difference(p: int, q: int) -> Ratio {
    Ratio::quotient(p - q, p + q)
}

/// The ratio of two samples: `p / q`.
pub open spec fn simple_ratio(p: int, q: int) -> Ratio {
    Ratio::quotient(p, q)
}

/// The ratio of two samples less one: `(p - q) / q`.
pub open spec fn ratio_less_one(p: int, q: int) -> Ratio {
    Ratio::quotient(p - q, q)
}

/// `(b08 - b04) / (b08 + 6 b04 - 7.5 b02 + 1)` over samples, doubled above
/// and below.
pub open spec fn evi_quotient(b02: int, b04: int, b08: int) -> Ratio {
    Ratio::quotient(2 * (b08 - b04), 2 * b08 + 12 * b04 - 15 * b02 + 510)
}

/// `1.22 (b09 - 1.22 b05 - 0.03) / (1.22 b09 + b05 + 0.162472)` over samples;
/// the divisor is never zero.
pub open spec fn atsavi_quotient(b05: int, b09: int) -> Ratio {
    Ratio::quotient(305 * (100 * b09 - 122 * b05 - 765), 30500 * b09 + 25000 * b05 + 1035759)
}

/// `b09 - 0.66 b11 / (b09 + 0.66 b11)` over samples.
pub open spec fn afri1600_quotient(b09: int, b11: int) -> Ratio {
    Ratio::quotient(b09 * (50 * b09 + 33 * b11) - 8415 * b11, 255 * (50 * b09 + 33 * b11))
}

/// `b09 - 0.5 b12 / (b09 + 0.56 b12)` over samples.
pub open spec fn afri2100_quotient(b09: int, b12: int) -> Ratio {
    Ratio::quotient(b09 * (50 * b09 + 28 * b12) - 6375 * b12, 255 * (50 * b09 + 28 * b12))
}

/// `1 / b03 - 1 / b05` over samples.
pub open spec fn ari_quotient(b03: int, b05: int) -> Ratio {
    Ratio::quotient(255 * (b05 - b03), b03 * b05)
}

/// `2 b09 - b04` over samples.
pub open spec fn avi_quotient(b04: int, b09: int) -> Ratio {
    Ratio::quotient(2 * b09 - b04, 255)
}

/// `-0.18 + 1.17 (b09 - b05) / (b09 + b05)` over samples.
pub open spec fn arvi2_quotient(b05: int, b09: int) -> Ratio {
    Ratio::quotient(9 * (11 * b09 - 15 * b05), 100 * (b09 + b05))
}

/// `(1 / b03 - 1 / b05) / b09` over samples.
pub open spec fn bri_quotient(b03: int, b05: int, b09: int) -> Ratio {
    Ratio::quotient(65025 * (b05 - b03), b03 * b05 * b09)
}

/// The index as one quotient of two integers.
pub open spec fn closed_form(index: Index, px: Seq<u8>) -> Ratio {
    let p0 = px[0] as int;
    let p1 = px[1] as int;
    let p2 = px[2] as int;
    match index {
        Index::Evi => evi_quotient(p0, p1, p2),
        Index::Ndvi => normalized_difference(p1, p0),
        Index::Gndvi => normalized_difference(p1, p0),
        Index::Msi => simple_ratio(p1, p0),
        Index::Ndwi => normalized_difference(p0, p1),
        Index::Ndbi => normalized_difference(p1, p0),
        Index::Ndmi => normalized_difference(p1, p0),
        Index::Atsavi => atsavi_quotient(p0, p1),
        Index::Afri1600 => afri1600_quotient(p0, p1),
        Index::Afri2100 => afri2100_quotient(p0, p1),
        Index::Ari => ari_quotient(p0, p1),
        Index::Avi => avi_quotient(p0, p1),
        Index::Arvi2 => arvi2_quotient(p0, p1),
        Index::Bri => bri_quotient(p0, p1, p2),
        Index::Chlgreen => simple_ratio(p0, p1),
        Index::Cigreen => ratio_less_one(p1, p0),
        Index::Cirededge => ratio_less_one(p1, p0),
        Index::Chlrededge => simple_ratio(p0, p1),
    }
}

/// The sum of two fractions, worked out.
proof fn lemma_plus_is(a: int, b: int, c: int, d: int, num: int, den: int)
    requires
        num == a * d + c * b,
        den == b * d,
    ensures
        (Ratio::Finite { num: a, den: b }).plus(Ratio::Finite { num: c, den: d })
            == (Ratio::Finite { num, den }),
{
}

/// The difference of two fractions, worked out.
proof fn lemma_minus_is(a: int, b: int, c: int, d: int, num: int, den: int)
    requires
        num == a * d - c * b,
        den == b * d,
    ensures
        (Ratio::Finite { num: a, den: b }).minus(Ratio::Finite { num: c, den: d })
            == (Ratio::Finite { num, den }),
{
    assert((-c) * b == -(c * b)) by (nonlinear_arith);
}

/// The product of two fractions, worked out.
proof fn lemma_times_is(a: int, b: int, c: int, d: int, num: int, den: int)
    requires
        num == a * c,
        den == b * d,
    ensures
        (Ratio::Finite { num: a, den: b }).times(Ratio::Finite { num: c, den: d })
            == (Ratio::Finite { num, den }),
{
}

/// The quotient of two fractions, worked out.
proof fn lemma_over_is(a: int, b: int, c: int, d: int, num: int, den: int)
    requires
        num == a * d,
        den == b * c,
    ensures
        (Ratio::Finite { num: a, den: b }).over(Ratio::Finite { num: c, den: d })
            == Ratio::quotient(num, den),
{
}

/// `(p - q) / (p + q)` on fractions of full scale is the normalised
/// difference of the samples.
pub proof fn lemma_normalized_difference(p: u8, q: u8)
    ensures
        Ratio::from_sample(p).minus(Ratio::from_sample(q)).over(
            Ratio::from_sample(p).plus(Ratio::from_sample(q)),
        ).wf(),
        Ratio::from_sample(p).minus(Ratio::from_sample(q)).over(
            Ratio::from_sample(p).plus(Ratio::from_sample(q)),
        ).same_value(normalized_difference(p as int, q as int)),
{
    let (above, below) = (p - q, p + q);
    lemma_minus_is(p as int, 255, q as int, 255, 255 * above, 65025);
    lemma_plus_is(p as int, 255, q as int, 255, 255 * below, 65025);
    lemma_over_is(255 * above, 65025, 255 * below, 65025, 16581375 * above, 16581375 * below);
    lemma_quotient_scale(above, below, 16581375);
}

/// `p / q` on fractions of full scale is the ratio of the samples.
pub proof fn lemma_simple_ratio(p: u8, q: u8)
    ensures
        Ratio::from_sample(p).over(Ratio::from_sample(q)).wf(),
        Ratio::from_sample(p).over(Ratio::from_sample(q)).same_value(
            simple_ratio(p as int, q as int),
        ),
{
    lemma_over_is(p as int, 255, q as int, 255, 255 * p, 255 * q);
    lemma_quotient_scale(p as int, q as int, 255);
}

/// The inverse of `q / p` on fractions of full scale is the ratio `p / q` of
/// the samples; where `p` is zero, both are zero or both undefined.
pub proof fn lemma_inverse_ratio(p: u8, q: u8)
    ensures
        Ratio::from_sample(q).over(Ratio::from_sample(p)).reciprocal().wf(),
        Ratio::from_sample(q).over(Ratio::from_sample(p)).reciprocal().same_value(
            simple_ratio(p as int, q as int),
        ),
{
    let ratio = Ratio::from_sample(q).over(Ratio::from_sample(p));
    lemma_over_is(q as int, 255, p as int, 255, 255 * q, 255 * p);
    if p != 0 {
        lemma_over_is(1, 1, 255 * q, 255 * p, 255 * p, 255 * q);
        lemma_quotient_scale(p as int, q as int, 255);
    } else if q != 0 {
        // The inverse of an infinite ratio is zero, and so is `0 / q`.
        assert(ratio.reciprocal() == Ratio::Finite { num: 0, den: 1 });
        assert((Ratio::Finite { num: 0, den: 1 }).same_value(
            Ratio::Finite { num: 0, den: q as int },
        ));
    }
}

/// `p / q - 1` on fractions of full scale is `(p - q) / q` on the samples.
pub proof fn lemma_ratio_less_one(p: u8, q: u8)
    ensures
        Ratio::from_sample(p).over(Ratio::from_sample(q)).minus(Ratio::whole(1)).wf(),
        Ratio::from_sample(p).over(Ratio::from_sample(q)).minus(Ratio::whole(1)).same_value(
            ratio_less_one(p as int, q as int),
        ),
{
    lemma_over_is(p as int, 255, q as int, 255, 255 * p, 255 * q);
    if q != 0 {
        lemma_minus_is(255 * p, 255 * q, 1, 1, 255 * (p - q), 255 * q);
        lemma_quotient_scale(p - q, q as int, 255);
    }
}

/// The enhanced vegetation index is [`evi_quotient`].
pub proof fn lemma_evi(px: Seq<u8>)
    requires
        px.len() >= 3,
    ensures
        evi_value(px).wf(),
        evi_value(px).same_value(evi_quotient(px[0] as int, px[1] as int, px[2] as int)),
{
    let (v02, v04, v08) = (px[0] as int, px[1] as int, px[2] as int);
    let above = 2 * (v08 - v04);
    let below = 2 * v08 + 12 * v04 - 15 * v02 + 510;
    // b08 - b04
    lemma_minus_is(v08, 255, v04, 255, 255 * v08 - 255 * v04, 65025);
    // b08 + 6 b04
    lemma_times_is(6, 1, v04, 255, 6 * v04, 255);
    lemma_plus_is(v08, 255, 6 * v04, 255, 255 * v08 + 1530 * v04, 65025);
    // - 7.5 b02
    lemma_times_is(75, 10, v02, 255, 75 * v02, 2550);
    lemma_minus_is(
        255 * v08 + 1530 * v04,
        65025,
        75 * v02,
        2550,
        650250 * v08 + 3901500 * v04 - 4876875 * v02,
        165813750,
    );
    // + 1
    lemma_plus_is(
        650250 * v08 + 3901500 * v04 - 4876875 * v02,
        165813750,
        1,
        1,
        325125 * below,
        165813750,
    );
    lemma_over_is(
        255 * v08 - 255 * v04,
        65025,
        325125 * below,
        165813750,
        21141253125 * above,
        21141253125 * below,
    );
    lemma_quotient_scale(above, below, 21141253125);
}

/// The adjusted transformed soil-adjusted vegetation index is
/// [`atsavi_quotient`].
pub proof fn lemma_atsavi(px: Seq<u8>)
    requires
        px.len() >= 2,
    ensures
        atsavi_value(px).wf(),
        atsavi_value(px).same_value(atsavi_quotient(px[0] as int, px[1] as int)),
{
    let (v05, v09) = (px[0] as int, px[1] as int);
    let above = 100 * v09 - 122 * v05 - 765;
    let below = 30500 * v09 + 25000 * v05 + 1035759;
    // b09 - a b05 - b
    lemma_times_is(122, 100, v05, 255, 122 * v05, 25500);
    lemma_minus_is(v09, 255, 122 * v05, 25500, 25500 * v09 - 31110 * v05, 6502500);
    lemma_minus_is(25500 * v09 - 31110 * v05, 6502500, 3, 100, 25500 * above, 650250000);
    // x (1 + a a)
    lemma_times_is(122, 100, 122, 100, 14884, 10000);
    lemma_plus_is(1, 1, 14884, 10000, 24884, 10000);
    lemma_times_is(8, 100, 24884, 10000, 199072, 1000000);
    // a b09 + b05 - a b + x (1 + a a)
    lemma_times_is(122, 100, v09, 255, 122 * v09, 25500);
    lemma_plus_is(122 * v09, 25500, v05, 255, 31110 * v09 + 25500 * v05, 6502500);
    lemma_times_is(122, 100, 3, 100, 366, 10000);
    lemma_minus_is(
        31110 * v09 + 25500 * v05,
        6502500,
        366,
        10000,
        311100000 * v09 + 255000000 * v05 - 2379915000,
        65025000000,
    );
    lemma_plus_is(
        311100000 * v09 + 255000000 * v05 - 2379915000,
        65025000000,
        199072,
        1000000,
        10200000000 * below,
        65025000000000000,
    );
    lemma_over_is(
        25500 * above,
        650250000,
        10200000000 * below,
        65025000000000000,
        1658137500000000000000 * above,
        6632550000000000000 * below,
    );
    lemma_times_is(
        122,
        100,
        1658137500000000000000 * above,
        6632550000000000000 * below,
        663255000000000000000 * (305 * above),
        663255000000000000000 * below,
    );
    lemma_quotient_scale(305 * above, below, 663255000000000000000);
}

/// The Ashburn vegetation index is [`avi_quotient`].
pub proof fn lemma_avi(px: Seq<u8>)
    requires
        px.len() >= 2,
    ensures
        avi_value(px).wf(),
        avi_value(px).same_value(avi_quotient(px[0] as int, px[1] as int)),
{
    let (v04, v09) = (px[0] as int, px[1] as int);
    lemma_times_is(2, 1, v09, 255, 2 * v09, 255);
    lemma_minus_is(2 * v09, 255, v04, 255, 255 * (2 * v09 - v04), 255 * 255int);
    lemma_quotient_scale(2 * v09 - v04, 255, 255);
}

/// The aerosol free vegetation index 1600 is [`afri1600_quotient`].
pub proof fn lemma_afri1600(px: Seq<u8>)
    requires
        px.len() >= 2,
    ensures
        afri1600_value(px).wf(),
        afri1600_value(px).same_value(afri1600_quotient(px[0] as int, px[1] as int)),
{
    let (v09, v11) = (px[0] as int, px[1] as int);
    let below = 50 * v09 + 33 * v11;
    // b11 / (b09 + 0.66 b11)
    lemma_times_is(66, 100, v11, 255, 66 * v11, 25500);
    lemma_plus_is(v09, 255, 66 * v11, 25500, 510 * below, 6502500);
    lemma_over_is(v11, 255, 510 * below, 6502500, 6502500 * v11, 130050 * below);
    assert(v09 * below == 0 <== below == 0) by (nonlinear_arith);
    if below != 0 {
        // b09 - 0.66 (..)
        lemma_times_is(
            66,
            100,
            6502500 * v11,
            130050 * below,
            429165000 * v11,
            13005000 * below,
        );
        let above = v09 * below - 8415 * v11;
        assert(v09 * (13005000 * below) - (429165000 * v11) * 255 == 13005000 * above)
            by (nonlinear_arith)
            requires
                above == v09 * below - 8415 * v11,
        ;
        lemma_minus_is(
            v09,
            255,
            429165000 * v11,
            13005000 * below,
            13005000 * above,
            13005000 * (255 * below),
        );
        lemma_quotient_scale(above, 255 * below, 13005000);
    }
}

/// The aerosol free vegetation index 2100 is [`afri2100_quotient`].
pub proof fn lemma_afri2100(px: Seq<u8>)
    requires
        px.len() >= 2,
    ensures
        afri2100_value(px).wf(),
        afri2100_value(px).same_value(afri2100_quotient(px[0] as int, px[1] as int)),
{
    let (v09, v12) = (px[0] as int, px[1] as int);
    let below = 50 * v09 + 28 * v12;
    // b12 / (b09 + 0.56 b12)
    lemma_times_is(56, 100, v12, 255, 56 * v12, 25500);
    lemma_plus_is(v09, 255, 56 * v12, 25500, 510 * below, 6502500);
    lemma_over_is(v12, 255, 510 * below, 6502500, 6502500 * v12, 130050 * below);
    assert(v09 * below == 0 <== below == 0) by (nonlinear_arith);
    if below != 0 {
        // b09 - 0.5 (..)
        lemma_times_is(5, 10, 6502500 * v12, 130050 * below, 32512500 * v12, 1300500 * below);
        let above = v09 * below - 6375 * v12;
        assert(v09 * (1300500 * below) - (32512500 * v12) * 255 == 1300500 * above)
            by (nonlinear_arith)
            requires
                above == v09 * below - 6375 * v12,
        ;
        lemma_minus_is(
            v09,
            255,
            32512500 * v12,
            1300500 * below,
            1300500 * above,
            1300500 * (255 * below),
        );
        lemma_quotient_scale(above, 255 * below, 1300500);
    }
}

/// The difference of the inverses of two samples as fractions of full
/// scale: `255 (q - p) / (p q)`, also where a sample is zero.
proof fn lemma_inverse_difference(p: u8, q: u8)
    ensures
        Ratio::from_sample(p).reciprocal().minus(Ratio::from_sample(q).reciprocal())
            == Ratio::quotient(255 * (q - p), p * q),
        p * q >= 0,
        p * q == 0 <==> p == 0 || q == 0,
{
    assert(p * q >= 0 && (p * q == 0 <==> p == 0 || q == 0)) by (nonlinear_arith);
    lemma_over_is(1, 1, p as int, 255, 255, p as int);
    lemma_over_is(1, 1, q as int, 255, 255, q as int);
    if p != 0 && q != 0 {
        lemma_minus_is(255, p as int, 255, q as int, 255 * (q - p), p * q);
    }
}

/// The anthocyanin reflectance index is [`ari_quotient`].
pub proof fn lemma_ari(px: Seq<u8>)
    requires
        px.len() >= 2,
    ensures
        ari_value(px).wf(),
        ari_value(px).same_value(ari_quotient(px[0] as int, px[1] as int)),
{
    lemma_inverse_difference(px[0], px[1]);
}

/// The atmospherically resistant vegetation index 2 is [`arvi2_quotient`].
pub proof fn lemma_arvi2(px: Seq<u8>)
    requires
        px.len() >= 2,
    ensures
        arvi2_value(px).wf(),
        arvi2_value(px).same_value(arvi2_quotient(px[0] as int, px[1] as int)),
{
    let (v05, v09) = (px[0] as int, px[1] as int);
    let (above, below) = (v09 - v05, v09 + v05);
    lemma_minus_is(v09, 255, v05, 255, 255 * above, 65025);
    lemma_plus_is(v09, 255, v05, 255, 255 * below, 65025);
    lemma_over_is(255 * above, 65025, 255 * below, 65025, 16581375 * above, 16581375 * below);
    if below != 0 {
        lemma_times_is(
            117,
            100,
            16581375 * above,
            16581375 * below,
            1940020875 * above,
            1658137500 * below,
        );
        lemma_plus_is(
            -18,
            100,
            1940020875 * above,
            1658137500 * below,
            1658137500 * (9 * (11 * v09 - 15 * v05)),
            1658137500 * (100 * below),
        );
        lemma_quotient_scale(9 * (11 * v09 - 15 * v05), 100 * below, 1658137500);
    }
}

/// The browning reflectance index is [`bri_quotient`].
pub proof fn lemma_bri(px: Seq<u8>)
    requires
        px.len() >= 3,
    ensures
        bri_value(px).wf(),
        bri_value(px).same_value(bri_quotient(px[0] as int, px[1] as int, px[2] as int)),
{
    let (v03, v05, v09) = (px[0] as int, px[1] as int, px[2] as int);
    let below = v03 * v05;
    lemma_inverse_difference(px[0], px[1]);
    assert(below * v09 >= 0 && (below == 0 ==> below * v09 == 0)) by (nonlinear_arith)
        requires
            below >= 0,
            v09 >= 0,
    ;
    if below != 0 {
        lemma_over_is(255 * (v05 - v03), below, v09, 255, 65025 * (v05 - v03), below * v09);
    }
}

/// Every index is its closed form: the value of the formula and the
/// quotient of integers are the same number, and so have the same byte.
pub proof fn lemma_closed_form(index: Index, px: Seq<u8>)
    requires
        px.len() >= index.arity(),
    ensures
        index.value(px).wf(),
        index.value(px).same_value(closed_form(index, px)),
        index.value(px).to_byte() == closed_form(index, px).to_byte(),
{
    match index {
        Index::Evi => lemma_evi(px),
        Index::Ndvi => lemma_normalized_difference(px[1], px[0]),
        Index::Gndvi => lemma_normalized_difference(px[1], px[0]),
        Index::Msi => lemma_simple_ratio(px[1], px[0]),
        Index::Ndwi => lemma_normalized_difference(px[0], px[1]),
        Index::Ndbi => lemma_normalized_difference(px[1], px[0]),
        Index::Ndmi => lemma_normalized_difference(px[1], px[0]),
        Index::Atsavi => lemma_atsavi(px),
        Index::Afri1600 => lemma_afri1600(px),
        Index::Afri2100 => lemma_afri2100(px),
        Index::Ari => lemma_ari(px),
        Index::Avi => lemma_avi(px),
        Index::Arvi2 => lemma_arvi2(px),
        Index::Bri => lemma_bri(px),
        Index::Chlgreen => lemma_inverse_ratio(px[0], px[1]),
        Index::Cigreen => lemma_ratio_less_one(px[1], px[0]),
        Index::Cirededge => lemma_ratio_less_one(px[1], px[0]),
        Index::Chlrededge => lemma_inverse_ratio(px[0], px[1]),
    }
    lemma_same_value_same_byte(index.value(px), closed_form(index, px));
}

} // verus!
