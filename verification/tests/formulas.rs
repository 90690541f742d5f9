use sentinel2_indices::indices::{
    afri1600, afri2100, ari, arvi2, atsavi, avi, bri, chlgreen, chlrededge, cigreen, cirededge, evi,
    gndvi, msi, ndbi, ndmi, ndvi, ndwi,
};
use sentinel2_indices::registry::Index;

fn check(f: fn(Vec<u8>) -> u8, cases: &[(&[u8], u8)]) {
    for (px, expected) in cases {
        assert_eq!(f(px.to_vec()), *expected, "samples {:?}", px);
    }
}

#[test]
fn evi_values() {
    check(
        evi,
        &[
            (&[10, 50, 90], 17),
            (&[0, 5, 9], 3),
            (&[90, 50, 10], 92),
            (&[200, 100, 50], 21),
            (&[2, 1, 3], 2),
            (&[255, 255, 255], 0),
            (&[128, 128, 128], 0),
        ],
    );
}

#[test]
fn evi_where_the_divisor_vanishes() {
    // b08 + 6 b04 - 7.5 b02 + 1 is zero for each of these.
    check(evi, &[(&[34, 0, 0], 0), (&[36, 0, 15], 255), (&[36, 2, 3], 255), (&[36, 1, 9], 255)]);
}

#[test]
fn ndvi_values() {
    check(
        ndvi,
        &[
            (&[10, 50], 170),
            (&[20, 60], 127),
            (&[30, 70], 102),
            (&[40, 80], 85),
            (&[0, 7], 255),
            (&[1, 255], 253),
            (&[100, 200], 85),
            (&[3, 250], 248),
            (&[1, 33], 240),
        ],
    );
}

#[test]
fn ndvi_below_zero_wraps_round() {
    // -2/3 of full scale is -170, and -170 modulo 256 is 86.
    check(
        ndvi,
        &[(&[50, 10], 86), (&[7, 0], 1), (&[255, 1], 3), (&[200, 100], 171), (&[33, 1], 16)],
    );
}

#[test]
fn ndvi_of_no_signal_is_zero() {
    check(ndvi, &[(&[0, 0], 0)]);
}

#[test]
fn gndvi_values() {
    check(
        gndvi,
        &[(&[10, 50], 170), (&[50, 10], 86), (&[0, 0], 0), (&[0, 7], 255), (&[3, 250], 248)],
    );
}

#[test]
fn msi_values() {
    check(
        msi,
        &[
            (&[50, 10], 51),
            (&[200, 100], 127),
            (&[128, 128], 255),
            (&[255, 1], 1),
            (&[250, 3], 3),
        ],
    );
}

#[test]
fn msi_above_full_scale_wraps_round() {
    // 5 times full scale is 1275, and 1275 modulo 256 is 251.
    check(msi, &[(&[10, 50], 251), (&[100, 200], 254), (&[1, 255], 1), (&[1, 33], 223)]);
}

#[test]
fn msi_where_the_divisor_vanishes() {
    check(msi, &[(&[0, 7], 255), (&[0, 0], 0), (&[7, 0], 0)]);
}

#[test]
fn ndwi_values() {
    check(
        ndwi,
        &[(&[50, 10], 170), (&[10, 50], 86), (&[0, 0], 0), (&[7, 0], 255), (&[33, 1], 240)],
    );
}

#[test]
fn ndbi_values() {
    check(ndbi, &[(&[10, 50], 170), (&[50, 10], 86), (&[0, 0], 0), (&[100, 200], 85)]);
}

#[test]
fn ndmi_values() {
    check(ndmi, &[(&[10, 50], 170), (&[50, 10], 86), (&[0, 0], 0), (&[1, 255], 253)]);
}

#[test]
fn atsavi_values() {
    check(
        atsavi,
        &[
            (&[10, 50], 83),
            (&[50, 10], 80),
            (&[0, 0], 199),
            (&[0, 7], 252),
            (&[7, 0], 153),
            (&[128, 128], 222),
            (&[255, 255], 224),
            (&[1, 255], 216),
            (&[255, 1], 180),
            (&[200, 100], 127),
            (&[100, 200], 56),
        ],
    );
}

#[test]
fn afri1600_values() {
    check(
        afri1600,
        &[
            (&[10, 50], 71),
            (&[50, 10], 20),
            (&[0, 0], 0),
            (&[0, 7], 1),
            (&[7, 0], 7),
            (&[128, 128], 26),
            (&[255, 255], 153),
            (&[255, 1], 254),
            (&[100, 200], 211),
        ],
    );
}

#[test]
fn afri2100_values() {
    check(
        afri2100,
        &[
            (&[10, 50], 99),
            (&[50, 10], 27),
            (&[0, 0], 0),
            (&[0, 7], 29),
            (&[7, 0], 7),
            (&[128, 128], 46),
            (&[255, 255], 173),
            (&[100, 200], 236),
        ],
    );
}

#[test]
fn ari_values() {
    check(
        ari,
        &[
            (&[10, 50], 82),
            (&[50, 10], 174),
            (&[128, 128], 0),
            (&[1, 255], 2),
            (&[255, 1], 254),
            (&[200, 100], 187),
            (&[100, 200], 69),
        ],
    );
}

#[test]
fn ari_where_a_band_is_zero() {
    check(ari, &[(&[0, 0], 0), (&[0, 7], 255), (&[7, 0], 0)]);
}

#[test]
fn avi_values() {
    check(
        avi,
        &[
            (&[10, 50], 90),
            (&[50, 10], 226),
            (&[0, 0], 0),
            (&[0, 7], 14),
            (&[7, 0], 249),
            (&[128, 128], 128),
            (&[255, 255], 255),
            (&[1, 255], 253),
            (&[200, 100], 0),
        ],
    );
}

#[test]
fn arvi2_values() {
    check(
        arvi2,
        &[
            (&[10, 50], 153),
            (&[50, 10], 12),
            (&[0, 0], 0),
            (&[0, 7], 252),
            (&[7, 0], 168),
            (&[128, 128], 211),
            (&[1, 255], 250),
            (&[100, 200], 53),
        ],
    );
}

#[test]
fn bri_values() {
    check(
        bri,
        &[
            (&[10, 50, 90], 147),
            (&[90, 50, 10], 109),
            (&[200, 100, 50], 134),
            (&[2, 1, 3], 214),
            (&[36, 2, 3], 145),
            (&[255, 255, 255], 0),
        ],
    );
}

#[test]
fn bri_where_a_band_is_zero() {
    check(
        bri,
        &[(&[0, 0, 0], 0), (&[0, 5, 9], 255), (&[34, 0, 0], 0), (&[36, 0, 15], 0), (&[1, 2, 0], 255)],
    );
}

#[test]
fn chlgreen_values() {
    check(
        chlgreen,
        &[
            (&[10, 50], 51),
            (&[50, 10], 251),
            (&[0, 0], 0),
            (&[0, 7], 0),
            (&[7, 0], 255),
            (&[128, 128], 255),
            (&[100, 200], 127),
        ],
    );
}

#[test]
fn cigreen_values() {
    check(
        cigreen,
        &[
            (&[10, 50], 252),
            (&[50, 10], 52),
            (&[0, 0], 0),
            (&[0, 7], 255),
            (&[7, 0], 1),
            (&[128, 128], 0),
            (&[100, 200], 255),
        ],
    );
}

#[test]
fn cirededge_values() {
    check(
        cirededge,
        &[(&[10, 50], 252), (&[50, 10], 52), (&[0, 0], 0), (&[0, 7], 255), (&[200, 100], 129)],
    );
}

#[test]
fn chlrededge_values() {
    check(
        chlrededge,
        &[(&[10, 50], 51), (&[50, 10], 251), (&[0, 7], 0), (&[7, 0], 255), (&[33, 1], 223)],
    );
}

#[test]
fn samples_beyond_the_bands_are_not_read() {
    assert_eq!(ndvi(vec![10, 50, 77, 3]), 170);
    assert_eq!(evi(vec![10, 50, 90, 200]), 17);
}

#[test]
fn equal_bands_give_zero_in_every_normalised_difference() {
    let differences: [fn(Vec<u8>) -> u8; 5] = [ndvi, gndvi, ndwi, ndbi, ndmi];
    for f in differences {
        for v in 1..=255u8 {
            assert_eq!(f(vec![v, v]), 0, "sample {}", v);
        }
    }
    assert_eq!(ndvi(vec![128, 128]), 0);
}

#[test]
fn evaluation_is_repeatable() {
    for index in Index::catalog() {
        for a in [0u8, 1, 63, 128, 255] {
            for b in [0u8, 2, 77, 254] {
                let first = index.evaluate(vec![a, b, 90]);
                let second = index.evaluate(vec![a, b, 90]);
                assert_eq!(first, second);
            }
        }
    }
}

fn wrap(v: i64) -> u8 {
    v.rem_euclid(256) as u8
}

#[test]
fn normalised_differences_agree_with_integer_division() {
    for p in 0..=255i64 {
        for q in 0..=255i64 {
            let expected = if p + q == 0 {
                0
            } else if p >= q {
                wrap(255 * (p - q) / (p + q))
            } else {
                wrap(-(255 * (q - p) / (p + q)))
            };
            let (p8, q8) = (p as u8, q as u8);
            assert_eq!(ndvi(vec![q8, p8]), expected);
            assert_eq!(gndvi(vec![q8, p8]), expected);
            assert_eq!(ndwi(vec![p8, q8]), expected);
            assert_eq!(ndbi(vec![q8, p8]), expected);
            assert_eq!(ndmi(vec![q8, p8]), expected);
        }
    }
}

#[test]
fn ratios_agree_with_integer_division() {
    for p in 0..=255i64 {
        for q in 0..=255i64 {
            // p over q, and p over q less one.
            let ratio = if q != 0 {
                wrap(255 * p / q)
            } else if p != 0 {
                255
            } else {
                0
            };
            let less_one = if q != 0 {
                if p >= q {
                    wrap(255 * (p - q) / q)
                } else {
                    wrap(-(255 * (q - p) / q))
                }
            } else if p != 0 {
                255
            } else {
                0
            };
            let (p8, q8) = (p as u8, q as u8);
            assert_eq!(msi(vec![q8, p8]), ratio);
            assert_eq!(cigreen(vec![q8, p8]), less_one);
            assert_eq!(cirededge(vec![q8, p8]), less_one);
            assert_eq!(avi(vec![q8, p8]), wrap(2 * p - q));
        }
    }
}

#[test]
fn inverse_ratios_agree_with_integer_division() {
    for p in 0..=255i64 {
        for q in 0..=255i64 {
            // The inverse of p over q: q over p, but zero where q is zero.
            let expected = if q == 0 {
                0
            } else if p == 0 {
                255
            } else {
                wrap(255 * q / p)
            };
            assert_eq!(chlgreen(vec![q as u8, p as u8]), expected);
            assert_eq!(chlrededge(vec![q as u8, p as u8]), expected);
        }
    }
}

#[test]
fn every_index_evaluates_as_its_function() {
    let px = vec![10u8, 50, 90];
    assert_eq!(Index::Evi.evaluate(px.clone()), evi(px.clone()));
    assert_eq!(Index::Ndvi.evaluate(px.clone()), ndvi(px.clone()));
    assert_eq!(Index::Gndvi.evaluate(px.clone()), gndvi(px.clone()));
    assert_eq!(Index::Msi.evaluate(px.clone()), msi(px.clone()));
    assert_eq!(Index::Ndwi.evaluate(px.clone()), ndwi(px.clone()));
    assert_eq!(Index::Ndbi.evaluate(px.clone()), ndbi(px.clone()));
    assert_eq!(Index::Ndmi.evaluate(px.clone()), ndmi(px.clone()));
    assert_eq!(Index::Atsavi.evaluate(px.clone()), atsavi(px.clone()));
    assert_eq!(Index::Afri1600.evaluate(px.clone()), afri1600(px.clone()));
    assert_eq!(Index::Afri2100.evaluate(px.clone()), afri2100(px.clone()));
    assert_eq!(Index::Ari.evaluate(px.clone()), ari(px.clone()));
    assert_eq!(Index::Avi.evaluate(px.clone()), avi(px.clone()));
    assert_eq!(Index::Arvi2.evaluate(px.clone()), arvi2(px.clone()));
    assert_eq!(Index::Bri.evaluate(px.clone()), bri(px.clone()));
    assert_eq!(Index::Chlgreen.evaluate(px.clone()), chlgreen(px.clone()));
    assert_eq!(Index::Cigreen.evaluate(px.clone()), cigreen(px.clone()));
    assert_eq!(Index::Cirededge.evaluate(px.clone()), cirededge(px.clone()));
    assert_eq!(Index::Chlrededge.evaluate(px.clone()), chlrededge(px));
    assert_eq!(Index::Evi.evaluate(vec![10, 50, 90]), 17);
    assert_eq!(Index::Bri.evaluate(vec![10, 50, 90]), 147);
    assert_eq!(Index::Atsavi.evaluate(vec![10, 50]), 83);
}

/// The byte of the quotient `num / den`: 255 times the quotient, truncated
/// toward zero, modulo 256; of an infinity 255 or 0, of `0/0` 0.
fn quotient_byte(num: i64, den: i64) -> u8 {
    let (num, den) = if den < 0 { (-num, -den) } else { (num, den) };
    if den == 0 {
        if num > 0 {
            255
        } else {
            0
        }
    } else if num >= 0 {
        wrap(255 * num / den)
    } else {
        wrap(-(255 * -num / den))
    }
}

#[test]
fn two_band_indices_agree_with_their_closed_forms() {
    for p in 0..=255i64 {
        for q in 0..=255i64 {
            let px = vec![p as u8, q as u8];
            assert_eq!(
                atsavi(px.clone()),
                quotient_byte(305 * (100 * q - 122 * p - 765), 30500 * q + 25000 * p + 1035759)
            );
            assert_eq!(
                afri1600(px.clone()),
                quotient_byte(p * (50 * p + 33 * q) - 8415 * q, 255 * (50 * p + 33 * q))
            );
            assert_eq!(
                afri2100(px.clone()),
                quotient_byte(p * (50 * p + 28 * q) - 6375 * q, 255 * (50 * p + 28 * q))
            );
            assert_eq!(ari(px.clone()), quotient_byte(255 * (q - p), p * q));
            assert_eq!(avi(px.clone()), quotient_byte(2 * q - p, 255));
            assert_eq!(arvi2(px.clone()), quotient_byte(9 * (11 * q - 15 * p), 100 * (q + p)));
            assert_eq!(ndvi(px.clone()), quotient_byte(q - p, q + p));
            assert_eq!(ndwi(px.clone()), quotient_byte(p - q, p + q));
            assert_eq!(msi(px.clone()), quotient_byte(q, p));
            assert_eq!(chlgreen(px.clone()), quotient_byte(p, q));
            assert_eq!(cigreen(px), quotient_byte(q - p, p));
        }
    }
}

#[test]
fn three_band_indices_agree_with_their_closed_forms() {
    let some: Vec<i64> = (0..=255).filter(|v| v % 7 == 0 || *v < 40 || *v > 250).collect();
    for &a in &some {
        for &b in &some {
            for &c in &some {
                let px = vec![a as u8, b as u8, c as u8];
                assert_eq!(
                    evi(px.clone()),
                    quotient_byte(2 * (c - b), 2 * c + 12 * b - 15 * a + 510),
                    "samples {:?}",
                    px
                );
                assert_eq!(
                    bri(px.clone()),
                    quotient_byte(65025 * (b - a), a * b * c),
                    "samples {:?}",
                    px
                );
            }
        }
    }
}
