//! The index formulas.
//!
//! Each index is evaluated in three stages. The samples of one pixel, one
//! per band in the order in which the index lists its bands, become
//! fractions of full scale; the formula of the index is applied to them in
//! exact rational arithmetic; and the result becomes a byte by
//! [`Ratio::to_byte`]. For each index `x` the spec function `x_value` is the
//! formula, and the function `x` computes the byte of its value.
//!
//! A sample of zero can make a divisor vanish. The formula then has an
//! infinite or an undefined value, which is no error: it becomes the byte
//! that [`Ratio::to_byte`] gives it. In the same way a value below zero or
//! above full scale is no error: its byte wraps round.

use vstd::prelude::*;
use crate::fraction::Fraction;
use crate::ratio::Ratio;

verus! {

/// Enhanced vegetation index: `(b08 - b04) / (b08 + 6 b04 - 7.5 b02 + 1)`.
pub open spec fn evi_value(px: Seq<u8>) -> Ratio
    recommends
        px.len() >= 3,
{
    let b02 = Ratio::from_sample(px[0]);
    let b04 = Ratio::from_sample(px[1]);
    let b08 = Ratio::from_sample(px[2]);
    let difference = b08.minus(b04);
    let divisor = b08
        .plus(Ratio::whole(6).times(b04))
        .minus(Ratio::quotient(75, 10).times(b02))
        .plus(Ratio::whole(1));
    difference.over(divisor)
}

/// Enhanced vegetation index: the byte of [`evi_value`] for the samples of
/// B02, B04 and B08, in that order.
pub fn evi(one_px_data: Vec<u8>) -> (out: u8)
    requires
        one_px_data.len() >= 3,
    ensures
        out == evi_value(one_px_data@).to_byte(),
{
    let b02 = Fraction::from_sample(one_px_data[0]);
    let b04 = Fraction::from_sample(one_px_data[1]);
    let b08 = Fraction::from_sample(one_px_data[2]);
    let difference = b08.minus(b04);
    let divisor = b08
        .plus(Fraction::whole(6).times(b04))
        .minus(Fraction::constant(75, 10).times(b02))
        .plus(Fraction::whole(1));
    let result = difference.over(divisor);
    result.to_byte()
}

/// Normalised difference vegetation index: `(b08 - b04) / (b08 + b04)`.
pub open spec fn ndvi_value(px: Seq<u8>) -> Ratio
    recommends
        px.len() >= 2,
{
    let b04 = Ratio::from_sample(px[0]);
    let b08 = Ratio::from_sample(px[1]);
    b08.minus(b04).over(b08.plus(b04))
}

/// Normalised difference vegetation index: the byte of [`ndvi_value`] for the
/// samples of B04 and B08, in that order.
pub fn ndvi(one_px_data: Vec<u8>) -> (out: u8)
    requires
        one_px_data.len() >= 2,
    ensures
        out == ndvi_value(one_px_data@).to_byte(),
{
    let b04 = Fraction::from_sample(one_px_data[0]);
    let b08 = Fraction::from_sample(one_px_data[1]);
    let result = b08.minus(b04).over(b08.plus(b04));
    result.to_byte()
}

/// Green normalised difference vegetation index: `(b08 - b03) / (b08 + b03)`.
pub open spec fn gndvi_value(px: Seq<u8>) -> Ratio
    recommends
        px.len() >= 2,
{
    let b03 = Ratio::from_sample(px[0]);
    let b08 = Ratio::from_sample(px[1]);
    b08.minus(b03).over(b08.plus(b03))
}

/// Green normalised difference vegetation index: the byte of [`gndvi_value`]
/// for the samples of B03 and B08, in that order.
pub fn gndvi(one_px_data: Vec<u8>) -> (out: u8)
    requires
        one_px_data.len() >= 2,
    ensures
        out == gndvi_value(one_px_data@).to_byte(),
{
    let b03 = Fraction::from_sample(one_px_data[0]);
    let b08 = Fraction::from_sample(one_px_data[1]);
    let result = b08.minus(b03).over(b08.plus(b03));
    result.to_byte()
}

/// Moisture stress index: `b11 / b08`.
pub open spec fn msi_value(px: Seq<u8>) -> Ratio
    recommends
        px.len() >= 2,
{
    let b08 = Ratio::from_sample(px[0]);
    let b11 = Ratio::from_sample(px[1]);
    b11.over(b08)
}

/// Moisture stress index: the byte of [`msi_value`] for the samples of B08 and
/// B11, in that order.
pub fn msi(one_px_data: Vec<u8>) -> (out: u8)
    requires
        one_px_data.len() >= 2,
    ensures
        out == msi_value(one_px_data@).to_byte(),
{
    let b08 = Fraction::from_sample(one_px_data[0]);
    let b11 = Fraction::from_sample(one_px_data[1]);
    let result = b11.over(b08);
    result.to_byte()
}

/// Normalised difference water index: `(b03 - b11) / (b03 + b11)`.
pub open spec fn ndwi_value(px: Seq<u8>) -> Ratio
    recommends
        px.len() >= 2,
{
    let b03 = Ratio::from_sample(px[0]);
    let b11 = Ratio::from_sample(px[1]);
    b03.minus(b11).over(b03.plus(b11))
}

/// Normalised difference water index: the byte of [`ndwi_value`] for the
/// samples of B03 and B11, in that order.
pub fn ndwi(one_px_data: Vec<u8>) -> (out: u8)
    requires
        one_px_data.len() >= 2,
    ensures
        out == ndwi_value(one_px_data@).to_byte(),
{
    let b03 = Fraction::from_sample(one_px_data[0]);
    let b11 = Fraction::from_sample(one_px_data[1]);
    let result = b03.minus(b11).over(b03.plus(b11));
    result.to_byte()
}

/// Normalised difference built-up index: `(b11 - b08) / (b11 + b08)`.
pub open spec fn ndbi_value(px: Seq<u8>) -> Ratio
    recommends
        px.len() >= 2,
{
    let b08 = Ratio::from_sample(px[0]);
    let b11 = Ratio::from_sample(px[1]);
    b11.minus(b08).over(b11.plus(b08))
}

/// Normalised difference built-up index: the byte of [`ndbi_value`] for the
/// samples of B08 and B11, in that order.
pub fn ndbi(one_px_data: Vec<u8>) -> (out: u8)
    requires
        one_px_data.len() >= 2,
    ensures
        out == ndbi_value(one_px_data@).to_byte(),
{
    let b08 = Fraction::from_sample(one_px_data[0]);
    let b11 = Fraction::from_sample(one_px_data[1]);
    let result = b11.minus(b08).over(b11.plus(b08));
    result.to_byte()
}

/// Normalised difference mud index: `(b09 - b08) / (b09 + b08)`.
pub open spec fn ndmi_value(px: Seq<u8>) -> Ratio
    recommends
        px.len() >= 2,
{
    let b08 = Ratio::from_sample(px[0]);
    let b09 = Ratio::from_sample(px[1]);
    b09.minus(b08).over(b09.plus(b08))
}

/// Normalised difference mud index: the byte of [`ndmi_value`] for the samples
/// of B08 and B09, in that order.
pub fn ndmi(one_px_data: Vec<u8>) -> (out: u8)
    requires
        one_px_data.len() >= 2,
    ensures
        out == ndmi_value(one_px_data@).to_byte(),
{
    let b08 = Fraction::from_sample(one_px_data[0]);
    let b09 = Fraction::from_sample(one_px_data[1]);
    let result = b09.minus(b08).over(b09.plus(b08));
    result.to_byte()
}

/// Adjusted transformed soil-adjusted vegetation index:
/// `a (b09 - a b05 - b) / (a b09 + b05 - a b + x (1 + a^2))`, where `a = 1.22`,
/// `b = 0.03` and `x = 0.08`.
pub open spec fn atsavi_value(px: Seq<u8>) -> Ratio
    recommends
        px.len() >= 2,
{
    let b05 = Ratio::from_sample(px[0]);
    let b09 = Ratio::from_sample(px[1]);
    let a = Ratio::quotient(122, 100);
    let b = Ratio::quotient(3, 100);
    let x = Ratio::quotient(8, 100);
    let dividend = b09.minus(a.times(b05)).minus(b);
    let soil = x.times(Ratio::whole(1).plus(a.times(a)));
    let divisor = a.times(b09).plus(b05).minus(a.times(b)).plus(soil);
    a.times(dividend.over(divisor))
}

/// Adjusted transformed soil-adjusted vegetation index: the byte of
/// [`atsavi_value`] for the samples of B05 and B09, in that order.
pub fn atsavi(one_px_data: Vec<u8>) -> (out: u8)
    requires
        one_px_data.len() >= 2,
    ensures
        out == atsavi_value(one_px_data@).to_byte(),
{
    let b05 = Fraction::from_sample(one_px_data[0]);
    let b09 = Fraction::from_sample(one_px_data[1]);
    let a = Fraction::constant(122, 100);
    let b = Fraction::constant(3, 100);
    let x = Fraction::constant(8, 100);
    let dividend = b09.minus(a.times(b05)).minus(b);
    let soil = x.times(Fraction::whole(1).plus(a.times(a)));
    let divisor = a.times(b09).plus(b05).minus(a.times(b)).plus(soil);
    let result = a.times(dividend.over(divisor));
    result.to_byte()
}

/// Aerosol free vegetation index 1600: `b09 - 0.66 (b11 / (b09 + 0.66 b11))`.
pub open spec fn afri1600_value(px: Seq<u8>) -> Ratio
    recommends
        px.len() >= 2,
{
    let b09 = Ratio::from_sample(px[0]);
    let b11 = Ratio::from_sample(px[1]);
    let share = b11.over(b09.plus(Ratio::quotient(66, 100).times(b11)));
    b09.minus(Ratio::quotient(66, 100).times(share))
}

/// Aerosol free vegetation index 1600: the byte of [`afri1600_value`] for the
/// samples of B09 and B11, in that order.
pub fn afri1600(one_px_data: Vec<u8>) -> (out: u8)
    requires
        one_px_data.len() >= 2,
    ensures
        out == afri1600_value(one_px_data@).to_byte(),
{
    let b09 = Fraction::from_sample(one_px_data[0]);
    let b11 = Fraction::from_sample(one_px_data[1]);
    let share = b11.over(b09.plus(Fraction::constant(66, 100).times(b11)));
    let result = b09.minus(Fraction::constant(66, 100).times(share));
    result.to_byte()
}

/// Aerosol free vegetation index 2100: `b09 - 0.5 (b12 / (b09 + 0.56 b12))`.
pub open spec fn afri2100_value(px: Seq<u8>) -> Ratio
    recommends
        px.len() >= 2,
{
    let b09 = Ratio::from_sample(px[0]);
    let b12 = Ratio::from_sample(px[1]);
    let share = b12.over(b09.plus(Ratio::quotient(56, 100).times(b12)));
    b09.minus(Ratio::quotient(5, 10).times(share))
}

/// Aerosol free vegetation index 2100: the byte of [`afri2100_value`] for the
/// samples of B09 and B12, in that order.
pub fn afri2100(one_px_data: Vec<u8>) -> (out: u8)
    requires
        one_px_data.len() >= 2,
    ensures
        out == afri2100_value(one_px_data@).to_byte(),
{
    let b09 = Fraction::from_sample(one_px_data[0]);
    let b12 = Fraction::from_sample(one_px_data[1]);
    let share = b12.over(b09.plus(Fraction::constant(56, 100).times(b12)));
    let result = b09.minus(Fraction::constant(5, 10).times(share));
    result.to_byte()
}

/// Anthocyanin reflectance index: `1 / b03 - 1 / b05`.
pub open spec fn ari_value(px: Seq<u8>) -> Ratio
    recommends
        px.len() >= 2,
{
    let b03 = Ratio::from_sample(px[0]);
    let b05 = Ratio::from_sample(px[1]);
    b03.reciprocal().minus(b05.reciprocal())
}

/// Anthocyanin reflectance index: the byte of [`ari_value`] for the samples of
/// B03 and B05, in that order.
pub fn ari(one_px_data: Vec<u8>) -> (out: u8)
    requires
        one_px_data.len() >= 2,
    ensures
        out == ari_value(one_px_data@).to_byte(),
{
    let b03 = Fraction::from_sample(one_px_data[0]);
    let b05 = Fraction::from_sample(one_px_data[1]);
    let result = b03.reciprocal().minus(b05.reciprocal());
    result.to_byte()
}

/// Ashburn vegetation index: `2 b09 - b04`.
pub open spec fn avi_value(px: Seq<u8>) -> Ratio
    recommends
        px.len() >= 2,
{
    let b04 = Ratio::from_sample(px[0]);
    let b09 = Ratio::from_sample(px[1]);
    Ratio::whole(2).times(b09).minus(b04)
}

/// Ashburn vegetation index: the byte of [`avi_value`] for the samples of B04
/// and B09, in that order.
pub fn avi(one_px_data: Vec<u8>) -> (out: u8)
    requires
        one_px_data.len() >= 2,
    ensures
        out == avi_value(one_px_data@).to_byte(),
{
    let b04 = Fraction::from_sample(one_px_data[0]);
    let b09 = Fraction::from_sample(one_px_data[1]);
    let result = Fraction::whole(2).times(b09).minus(b04);
    result.to_byte()
}

/// Atmospherically resistant vegetation index 2: `-0.18 + 1.17 ((b09 - b05) / (b09 + b05))`.
pub open spec fn arvi2_value(px: Seq<u8>) -> Ratio
    recommends
        px.len() >= 2,
{
    let b05 = Ratio::from_sample(px[0]);
    let b09 = Ratio::from_sample(px[1]);
    let difference = b09.minus(b05).over(b09.plus(b05));
    Ratio::quotient(-18, 100).plus(Ratio::quotient(117, 100).times(difference))
}

/// Atmospherically resistant vegetation index 2: the byte of [`arvi2_value`]
/// for the samples of B05 and B09, in that order.
pub fn arvi2(one_px_data: Vec<u8>) -> (out: u8)
    requires
        one_px_data.len() >= 2,
    ensures
        out == arvi2_value(one_px_data@).to_byte(),
{
    let b05 = Fraction::from_sample(one_px_data[0]);
    let b09 = Fraction::from_sample(one_px_data[1]);
    let difference = b09.minus(b05).over(b09.plus(b05));
    let result = Fraction::constant(-18, 100).plus(Fraction::constant(117, 100).times(difference));
    result.to_byte()
}

/// Browning reflectance index: `(1 / b03 - 1 / b05) / b09`.
pub open spec fn bri_value(px: Seq<u8>) -> Ratio
    recommends
        px.len() >= 3,
{
    let b03 = Ratio::from_sample(px[0]);
    let b05 = Ratio::from_sample(px[1]);
    let b09 = Ratio::from_sample(px[2]);
    b03.reciprocal().minus(b05.reciprocal()).over(b09)
}

/// Browning reflectance index: the byte of [`bri_value`] for the samples of
/// B03, B05 and B09, in that order.
pub fn bri(one_px_data: Vec<u8>) -> (out: u8)
    requires
        one_px_data.len() >= 3,
    ensures
        out == bri_value(one_px_data@).to_byte(),
{
    let b03 = Fraction::from_sample(one_px_data[0]);
    let b05 = Fraction::from_sample(one_px_data[1]);
    let b09 = Fraction::from_sample(one_px_data[2]);
    let result = b03.reciprocal().minus(b05.reciprocal()).over(b09);
    result.to_byte()
}

/// Chlorophyll green: `(b07 / b03)^(-1)`.
pub open spec fn chlgreen_value(px: Seq<u8>) -> Ratio
    recommends
        px.len() >= 2,
{
    let b03 = Ratio::from_sample(px[0]);
    let b07 = Ratio::from_sample(px[1]);
    b07.over(b03).reciprocal()
}

/// Chlorophyll green: the byte of [`chlgreen_value`] for the samples of B03
/// and B07, in that order.
pub fn chlgreen(one_px_data: Vec<u8>) -> (out: u8)
    requires
        one_px_data.len() >= 2,
    ensures
        out == chlgreen_value(one_px_data@).to_byte(),
{
    let b03 = Fraction::from_sample(one_px_data[0]);
    let b07 = Fraction::from_sample(one_px_data[1]);
    let result = b07.over(b03).reciprocal();
    result.to_byte()
}

/// Chlorophyll index green: `b09 / b03 - 1`.
pub open spec fn cigreen_value(px: Seq<u8>) -> Ratio
    recommends
        px.len() >= 2,
{
    let b03 = Ratio::from_sample(px[0]);
    let b09 = Ratio::from_sample(px[1]);
    b09.over(b03).minus(Ratio::whole(1))
}

/// Chlorophyll index green: the byte of [`cigreen_value`] for the samples of
/// B03 and B09, in that order.
pub fn cigreen(one_px_data: Vec<u8>) -> (out: u8)
    requires
        one_px_data.len() >= 2,
    ensures
        out == cigreen_value(one_px_data@).to_byte(),
{
    let b03 = Fraction::from_sample(one_px_data[0]);
    let b09 = Fraction::from_sample(one_px_data[1]);
    let result = b09.over(b03).minus(Fraction::whole(1));
    result.to_byte()
}

/// Chlorophyll index red-edge: `b09 / b05 - 1`.
pub open spec fn cirededge_value(px: Seq<u8>) -> Ratio
    recommends
        px.len() >= 2,
{
    let b05 = Ratio::from_sample(px[0]);
    let b09 = Ratio::from_sample(px[1]);
    b09.over(b05).minus(Ratio::whole(1))
}

/// Chlorophyll index red-edge: the byte of [`cirededge_value`] for the samples
/// of B05 and B09, in that order.
pub fn cirededge(one_px_data: Vec<u8>) -> (out: u8)
    requires
        one_px_data.len() >= 2,
    ensures
        out == cirededge_value(one_px_data@).to_byte(),
{
    let b05 = Fraction::from_sample(one_px_data[0]);
    let b09 = Fraction::from_sample(one_px_data[1]);
    let result = b09.over(b05).minus(Fraction::whole(1));
    result.to_byte()
}

/// Chlorophyll red-edge: `(b07 / b05)^(-1)`.
pub open spec fn chlrededge_value(px: Seq<u8>) -> Ratio
    recommends
        px.len() >= 2,
{
    let b05 = Ratio::from_sample(px[0]);
    let b07 = Ratio::from_sample(px[1]);
    b07.over(b05).reciprocal()
}

/// Chlorophyll red-edge: the byte of [`chlrededge_value`] for the samples of
/// B05 and B07, in that order.
pub fn chlrededge(one_px_data: Vec<u8>) -> (out: u8)
    requires
        one_px_data.len() >= 2,
    ensures
        out == chlrededge_value(one_px_data@).to_byte(),
{
    let b05 = Fraction::from_sample(one_px_data[0]);
    let b07 = Fraction::from_sample(one_px_data[1]);
    let result = b07.over(b05).reciprocal();
    result.to_byte()
}

} // verus!
