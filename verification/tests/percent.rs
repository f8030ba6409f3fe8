use quick_settings::percent::Percent;

fn percent(value: f64) -> Percent {
    Percent { bits: value.to_bits() }
}

/// The text that the standard library writes for the number within 0 and 100.
fn formatted(value: f64) -> String {
    format!("{:.0}%", value.clamp(0.0, 100.0))
}

#[test]
fn percentages_read_as_formatted_numbers() {
    let mut step: u32 = 0;
    while step <= 4400 {
        let value = (step as f64 - 200.0) / 40.0;
        assert_eq!(percent(value).percentage(), formatted(value), "{value}");
        step += 1;
    }
}

#[test]
fn ties_go_to_the_even_number() {
    assert_eq!(percent(0.5).percentage(), "0%");
    assert_eq!(percent(1.5).percentage(), "2%");
    assert_eq!(percent(2.5).percentage(), "2%");
    assert_eq!(percent(98.5).percentage(), "98%");
    assert_eq!(percent(99.5).percentage(), "100%");
    assert_eq!(percent(f64::from_bits(0.5f64.to_bits() + 1)).percentage(), "1%");
    assert_eq!(percent(f64::from_bits(2.5f64.to_bits() + 1)).percentage(), "3%");
    assert_eq!(percent(f64::from_bits(1.5f64.to_bits() - 1)).percentage(), "1%");
}

#[test]
fn numbers_outside_the_range_are_taken_to_its_ends() {
    assert_eq!(percent(-3.0).percentage(), "0%");
    assert_eq!(percent(100.5).percentage(), "100%");
    assert_eq!(percent(1.0e300).percentage(), "100%");
    assert_eq!(percent(f64::INFINITY).percentage(), "100%");
    assert_eq!(percent(f64::NEG_INFINITY).percentage(), "0%");
    assert_eq!(percent(f64::MIN_POSITIVE).percentage(), "0%");
}

#[test]
fn odd_encodings_read_as_formatted_numbers() {
    for value in [
        f64::NAN,
        -f64::NAN,
        -0.0,
        0.0,
        5.0e-324,
        -5.0e-324,
        f64::MAX,
        f64::MIN,
        f64::INFINITY,
        f64::NEG_INFINITY,
        f64::EPSILON,
        63.999999999999993,
        64.0,
        127.99999999999999,
        128.0,
    ] {
        assert_eq!(percent(value).percentage(), formatted(value), "{value}");
    }
    assert_eq!(percent(f64::NAN).percentage(), "NaN%");
    assert_eq!(percent(-0.0).percentage(), "-0%");
}

#[test]
fn the_ceiling_tells_which_thresholds_are_exceeded() {
    let mut step: u32 = 0;
    while step <= 4400 {
        let value = (step as f64 - 200.0) / 40.0;
        for threshold in 0..100u64 {
            assert_eq!(
                percent(value).ceiling() > threshold,
                value > threshold as f64,
                "{value} {threshold}"
            );
        }
        step += 1;
    }
    assert_eq!(percent(f64::NAN).ceiling(), 0);
    assert_eq!(percent(f64::INFINITY).ceiling(), 100);
    assert_eq!(percent(-0.0).ceiling(), 0);
    assert_eq!(percent(5.0e-324).ceiling(), 1);
    assert_eq!(percent(95.00000000000001).ceiling(), 96);
    assert_eq!(percent(95.0).ceiling(), 95);
}
