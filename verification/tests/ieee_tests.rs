use fast_sde::ieee::floor_at;
use fast_sde::ieee::floor_at_zero;
use fast_sde::ieee::product_at_most;
use fast_sde::ieee::Double;
use fast_sde::ieee::FRACTION_RANGE;
use fast_sde::ieee::INFINITY_BITS;
use fast_sde::ieee::MINUS_ONE_BITS;
use fast_sde::ieee::ONE_BITS;
use fast_sde::ieee::SIGN_BIT;
use fast_sde::ieee::UNIT_FRACTIONS;
use fast_sde::ieee::ZERO_BITS;

fn d(x: f64) -> Double {
    Double::from_bits(x.to_bits())
}

fn samples() -> Vec<f64> {
    vec![
        0.0,
        -0.0,
        1.0,
        -1.0,
        0.1,
        -0.1,
        1e-10,
        -1e-10,
        1.5,
        100.0,
        5.0,
        f64::MIN_POSITIVE,
        -f64::MIN_POSITIVE,
        f64::from_bits(1),
        f64::from_bits(SIGN_BIT | 1),
        f64::MAX,
        f64::MIN,
        f64::INFINITY,
        f64::NEG_INFINITY,
        f64::NAN,
        -f64::NAN,
        f64::from_bits(0x7FF0_0000_0000_0001),
        1.0000000000000002,
        0.9999999999999999,
    ]
}

#[test]
fn constants_are_the_bits_of_their_values() {
    assert_eq!(ZERO_BITS, 0.0f64.to_bits());
    assert_eq!(ONE_BITS, 1.0f64.to_bits());
    assert_eq!(MINUS_ONE_BITS, (-1.0f64).to_bits());
    assert_eq!(INFINITY_BITS, f64::INFINITY.to_bits());
    assert_eq!(SIGN_BIT, (-0.0f64).to_bits());
    assert_eq!(FRACTION_RANGE, 1u64 << 52);
    assert_eq!(UNIT_FRACTIONS, 1u64 << 53);
}

#[test]
fn bits_round_trip() {
    for x in samples() {
        assert_eq!(d(x).to_bits(), x.to_bits());
    }
}

#[test]
fn classification_agrees_with_the_machine() {
    for x in samples() {
        assert_eq!(d(x).is_nan(), x.is_nan(), "{x}");
        assert_eq!(d(x).is_finite(), x.is_finite(), "{x}");
    }
}

#[test]
fn comparisons_agree_with_the_machine() {
    for x in samples() {
        for y in samples() {
            assert_eq!(d(x).lt(d(y)), x < y, "{x} < {y}");
            assert_eq!(d(x).le(d(y)), x <= y, "{x} <= {y}");
            assert_eq!(d(x).gt(d(y)), x > y, "{x} > {y}");
            assert_eq!(d(x).ge(d(y)), x >= y, "{x} >= {y}");
        }
    }
}

#[test]
fn zeros_compare_equal_and_nan_compares_with_nothing() {
    assert!(d(0.0).le(d(-0.0)) && d(-0.0).le(d(0.0)));
    assert!(!d(0.0).lt(d(-0.0)) && !d(-0.0).lt(d(0.0)));
    assert!(!d(f64::NAN).le(d(f64::NAN)));
    assert!(!d(f64::NAN).ge(d(0.0)));
    assert!(d(0.0) != d(-0.0));
}

#[test]
fn unit_fraction_is_exact() {
    assert_eq!(Double::from_unit_fraction(0).to_bits(), 0.0f64.to_bits());
    assert_eq!(Double::from_unit_fraction(1).to_bits(), (1.0f64 / 9007199254740992.0).to_bits());
    assert_eq!(Double::from_unit_fraction(1u64 << 52).to_bits(), 0.5f64.to_bits());
    assert_eq!(Double::from_unit_fraction(1u64 << 51).to_bits(), 0.25f64.to_bits());
    assert_eq!(Double::from_unit_fraction(3u64 << 51).to_bits(), 0.75f64.to_bits());
    assert_eq!(
        Double::from_unit_fraction(UNIT_FRACTIONS - 1).to_bits(),
        0.9999999999999999f64.to_bits()
    );
    let mut m: u64 = 1;
    while m < UNIT_FRACTIONS {
        let expected = m as f64 * (1.0 / 9007199254740992.0);
        assert_eq!(Double::from_unit_fraction(m).to_bits(), expected.to_bits());
        assert_eq!(Double::from_unit_fraction(m - 1).to_bits(), ((m - 1) as f64 / 9007199254740992.0).to_bits());
        m = m * 3 + 1;
    }
}

#[test]
fn times_exceeds_is_exact() {
    assert!(!d(10.0).times_exceeds(10, d(100.0)));
    assert!(d(10.000000000000002).times_exceeds(10, d(100.0)));
    assert!(!d(9.999999999999998).times_exceeds(10, d(100.0)));
    assert!(d(10.0).times_exceeds(10, d(99.99999999999999)));
    assert!(!d(0.0).times_exceeds(10, d(0.0)));
    assert!(!d(0.0).times_exceeds(10, d(1.0)));
    assert!(d(1.0).times_exceeds(10, d(0.0)));
    assert!(d(1.0).times_exceeds(1, d(0.9999999999999999)));
    assert!(!d(1.0).times_exceeds(1, d(1.0)));
    assert!(!d(1.0).times_exceeds(0, d(0.0)));
    assert!(d(0.5).times_exceeds(3, d(1.0)));
    assert!(!d(0.5).times_exceeds(2, d(1.0)));
}

#[test]
fn times_exceeds_across_the_whole_range() {
    let tiny = f64::from_bits(1);
    assert!(d(tiny).times_exceeds(2, d(tiny)));
    assert!(!d(tiny).times_exceeds(1, d(tiny)));
    assert!(!d(tiny).times_exceeds(1024, d(f64::MIN_POSITIVE)));
    assert!(d(f64::MIN_POSITIVE).times_exceeds(1, d(tiny)));
    assert!(d(f64::MAX).times_exceeds(1, d(1.0)));
    assert!(!d(1.0).times_exceeds(1024, d(f64::MAX)));
    assert!(!d(tiny).times_exceeds(1024, d(f64::MAX)));
    assert!(d(f64::MAX).times_exceeds(1, d(tiny)));
    assert!(d(f64::MAX).times_exceeds(2, d(f64::MAX)));
    assert!(d(1e300).times_exceeds(10, d(9.9e300)));
    assert!(!d(1e300).times_exceeds(10, d(1.1e301)));
}

#[test]
fn times_exceeds_reads_magnitudes() {
    assert!(d(-2.0).times_exceeds(1, d(1.0)));
    assert!(d(2.0).times_exceeds(1, d(-1.0)));
    assert!(!d(-1.0).times_exceeds(1, d(-2.0)));
}

#[test]
fn product_at_most_is_exact() {
    assert!(product_at_most(2, d(1.0), d(0.5), d(1.0), d(1.0)));
    assert!(!product_at_most(2, d(1.0), d(0.5000000000000001), d(1.0), d(1.0)));
    assert!(product_at_most(1, d(3.0), d(5.0), d(15.0), d(1.0)));
    assert!(!product_at_most(1, d(3.0), d(5.0), d(14.999999999999998), d(1.0)));
    assert!(product_at_most(0, d(f64::MAX), d(f64::MAX), d(0.0), d(0.0)));
    assert!(!product_at_most(1, d(1.0), d(1.0), d(0.0), d(1.0)));
    assert!(product_at_most(1, d(0.0), d(1.0), d(0.0), d(1.0)));
}

#[test]
fn product_at_most_across_the_whole_range() {
    let tiny = f64::from_bits(1);
    assert!(product_at_most(1, d(tiny), d(tiny), d(tiny), d(tiny)));
    assert!(!product_at_most(2, d(tiny), d(tiny), d(tiny), d(tiny)));
    assert!(product_at_most(1024, d(tiny), d(tiny), d(f64::MAX), d(f64::MAX)));
    assert!(!product_at_most(1, d(f64::MAX), d(f64::MAX), d(tiny), d(tiny)));
    assert!(product_at_most(1, d(f64::MAX), d(tiny), d(tiny), d(f64::MAX)));
    assert!(!product_at_most(2, d(f64::MAX), d(tiny), d(tiny), d(f64::MAX)));
    assert!(product_at_most(1, d(1e200), d(1e-200), d(1.0000000000000002), d(1.0)));
    assert!(product_at_most(1, d(2.0f64.powi(600)), d(2.0f64.powi(-600)), d(1.0), d(1.0)));
    assert!(!product_at_most(1, d(2.0f64.powi(600)), d(2.0f64.powi(-599)), d(1.0), d(1.0)));
    assert!(product_at_most(1, d(2.0f64.powi(-600)), d(2.0f64.powi(-600)), d(tiny), d(1.0)));
}

#[test]
fn floor_at_zero_cuts_off_what_is_not_above_zero() {
    assert_eq!(floor_at_zero(d(2.5)), d(2.5));
    assert_eq!(floor_at_zero(d(f64::MIN_POSITIVE)), d(f64::MIN_POSITIVE));
    assert_eq!(floor_at_zero(d(f64::INFINITY)), d(f64::INFINITY));
    assert_eq!(floor_at_zero(d(0.0)), d(0.0));
    assert_eq!(floor_at_zero(d(-0.0)), d(0.0));
    assert_eq!(floor_at_zero(d(-2.5)), d(0.0));
    assert_eq!(floor_at_zero(d(f64::NEG_INFINITY)), d(0.0));
    assert_eq!(floor_at_zero(d(f64::NAN)), d(0.0));
}

#[test]
fn floor_at_agrees_with_the_machine_maximum() {
    for x in samples() {
        for floor in [1e-10, 0.0, -3.0, 7.5] {
            let got = f64::from_bits(floor_at(d(x), d(floor)).to_bits());
            assert_eq!(got, x.max(floor), "{x} floored at {floor}");
        }
    }
    assert_eq!(floor_at(d(3.0), d(7.5)), d(7.5));
    assert_eq!(floor_at(d(8.0), d(7.5)), d(8.0));
    assert_eq!(floor_at(d(f64::NAN), d(7.5)), d(7.5));
}
