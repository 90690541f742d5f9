use sentinel2_indices::fraction::Fraction;

fn c(num: i8, den: u8) -> Fraction {
    Fraction::constant(num, den)
}

#[test]
fn sample_is_a_fraction_of_full_scale() {
    assert_eq!(Fraction::from_sample(0).parts(), Some((0, 255)));
    assert_eq!(Fraction::from_sample(51).parts(), Some((51, 255)));
    assert_eq!(Fraction::from_sample(255).parts(), Some((255, 255)));
    assert_eq!(Fraction::from_sample(255).to_byte(), 255);
    assert_eq!(Fraction::from_sample(0).to_byte(), 0);
    for v in 0..=255u8 {
        assert_eq!(Fraction::from_sample(v).to_byte(), v);
    }
}

#[test]
fn arithmetic_is_exact() {
    assert_eq!(c(1, 3).plus(c(1, 6)).parts(), Some((9, 18)));
    assert_eq!(c(1, 3).minus(c(1, 6)).parts(), Some((3, 18)));
    assert_eq!(c(2, 3).times(c(-3, 4)).parts(), Some((-6, 12)));
    assert_eq!(c(2, 3).over(c(4, 5)).parts(), Some((10, 12)));
    assert_eq!(c(2, 3).over(c(-4, 5)).parts(), Some((-10, 12)));
    assert_eq!(c(2, 3).negated().parts(), Some((-2, 3)));
    assert_eq!(c(2, 3).reciprocal().parts(), Some((3, 2)));
    assert_eq!(c(-2, 3).reciprocal().parts(), Some((-3, 2)));
    assert_eq!(c(5, 1).parts(), Some((5, 1)));
}

#[test]
fn division_by_zero_gives_an_infinity_of_the_dividend_s_sign() {
    let zero = c(0, 1);
    assert_eq!(c(1, 2).over(zero).signum(), 1);
    assert_eq!(c(1, 2).over(zero).parts(), None);
    assert_eq!(c(1, 2).over(zero).to_byte(), 255);
    assert_eq!(c(-1, 2).over(zero).signum(), -1);
    assert_eq!(c(-1, 2).over(zero).to_byte(), 0);
    assert_eq!(zero.over(zero).signum(), 0);
    assert_eq!(zero.over(zero).parts(), None);
    assert_eq!(zero.over(zero).to_byte(), 0);
    assert_eq!(c(1, 0).signum(), 1);
    assert_eq!(c(-1, 0).signum(), -1);
    assert_eq!(c(0, 0).parts(), None);
    assert_eq!(zero.reciprocal().to_byte(), 255);
}

#[test]
fn infinities_in_arithmetic() {
    let inf = c(1, 0);
    let neg_inf = c(-1, 0);
    let undefined = c(0, 0);
    let one = c(1, 1);
    assert_eq!(inf.plus(one).to_byte(), 255);
    assert_eq!(inf.minus(one).signum(), 1);
    assert_eq!(one.minus(inf).signum(), -1);
    assert_eq!(inf.plus(inf).signum(), 1);
    assert_eq!(neg_inf.plus(neg_inf).signum(), -1);
    assert_eq!(inf.minus(inf).parts(), None);
    assert_eq!(inf.minus(inf).signum(), 0);
    assert_eq!(inf.plus(neg_inf).to_byte(), 0);
    assert_eq!(inf.times(c(-1, 2)).signum(), -1);
    assert_eq!(neg_inf.times(neg_inf).signum(), 1);
    assert_eq!(inf.times(c(0, 1)).signum(), 0);
    assert_eq!(inf.times(c(0, 1)).parts(), None);
    assert_eq!(one.over(inf).parts(), Some((0, 1)));
    assert_eq!(inf.over(c(-2, 1)).signum(), -1);
    assert_eq!(inf.over(c(0, 1)).signum(), 1);
    assert_eq!(inf.over(inf).parts(), None);
    assert_eq!(inf.over(inf).signum(), 0);
    assert_eq!(inf.reciprocal().parts(), Some((0, 1)));
    assert_eq!(neg_inf.negated().signum(), 1);
    assert_eq!(undefined.plus(one).parts(), None);
    assert_eq!(undefined.times(one).signum(), 0);
    assert_eq!(one.over(undefined).to_byte(), 0);
    assert_eq!(undefined.reciprocal().parts(), None);
    assert_eq!(undefined.negated().parts(), None);
}

#[test]
fn byte_is_truncated_toward_zero() {
    // 255 / 2 = 127.5
    assert_eq!(c(1, 2).to_byte(), 127);
    // 255 * 2 / 3 = 170
    assert_eq!(c(2, 3).to_byte(), 170);
    // 255 / 7 = 36.43
    assert_eq!(c(1, 7).to_byte(), 36);
    // 255 * 6 / 7 = 218.57
    assert_eq!(c(6, 7).to_byte(), 218);
    // 255 / 128 = 1.99
    assert_eq!(c(1, 128).to_byte(), 1);
    // 255 / 127 = 2.008
    assert_eq!(c(1, 127).to_byte(), 2);
    assert_eq!(c(1, 255).to_byte(), 1);
    assert_eq!(c(0, 9).to_byte(), 0);
}

#[test]
fn byte_wraps_round() {
    assert_eq!(c(1, 1).to_byte(), 255);
    // 255 * 2 = 510 = 256 + 254
    assert_eq!(c(2, 1).to_byte(), 254);
    // 255 * 127 = 32385 = 126 * 256 + 129
    assert_eq!(c(127, 1).to_byte(), 129);
    // 255 * 257 / 255 = 257
    let above = c(127, 1).plus(c(127, 1)).plus(c(3, 1));
    let below = c(127, 1).plus(c(127, 1)).plus(c(1, 1));
    assert_eq!(above.over(below).to_byte(), 1);
    // -127.5 truncates to -127, which is 129 modulo 256.
    assert_eq!(c(-1, 2).to_byte(), 129);
    // -1/510 of full scale is -0.5, which truncates to 0.
    assert_eq!(c(-1, 2).times(c(1, 255)).to_byte(), 0);
    assert_eq!(c(-1, 1).to_byte(), 1);
    assert_eq!(c(-2, 1).to_byte(), 2);
    assert_eq!(c(-1, 255).to_byte(), 255);
    // -256 / 255 of full scale is -256, which is 0 modulo 256.
    assert_eq!(c(-128, 255).plus(c(-128, 255)).to_byte(), 0);
}

#[test]
fn byte_sees_the_value_not_the_fraction() {
    assert_eq!(c(2, 3).to_byte(), c(4, 6).to_byte());
    assert_eq!(c(2, 3).to_byte(), c(34, 51).to_byte());
    assert_eq!(c(-1, 7).to_byte(), c(-9, 63).to_byte());
    assert_eq!(c(1, 3).plus(c(1, 6)).to_byte(), c(1, 2).to_byte());
}

#[test]
fn sign_of_a_fraction() {
    assert_eq!(c(3, 4).signum(), 1);
    assert_eq!(c(-3, 4).signum(), -1);
    assert_eq!(c(0, 4).signum(), 0);
    assert_eq!(c(1, 3).minus(c(1, 3)).signum(), 0);
    assert_eq!(c(1, 4).minus(c(1, 3)).signum(), -1);
}
