use airpods::decibel::{
    Decibels, EngineDecibels, DEFAULT_GAIN_64, DEFAULT_LIMITER_32, DEFAULT_LIMITER_64,
    DEFAULT_MIC_GAIN_32,
};
use airpods::domain::{BatteryLevel, MicSettings};

fn samples() -> Vec<f64> {
    vec![
        0.0,
        -0.0,
        1.0,
        -1.0,
        0.1,
        18.0,
        30.0,
        30.000000000000004,
        29.999999999999996,
        31.0,
        -3.0,
        -12.0,
        -12.000000000000002,
        -11.999999999999998,
        -13.0,
        5e-324,
        -5e-324,
        f64::MIN_POSITIVE,
        f64::MAX,
        f64::MIN,
        f64::INFINITY,
        f64::NEG_INFINITY,
        f64::NAN,
        -f64::NAN,
    ]
}

#[test]
fn gain_range_agrees_with_the_numbers() {
    for value in samples() {
        let level = Decibels::from_bits(value.to_bits());
        assert_eq!(
            level.is_valid_gain(),
            value.is_finite() && (0.0..=30.0).contains(&value),
            "{value}"
        );
        let small = value as f32;
        let level = EngineDecibels::from_bits(small.to_bits());
        assert_eq!(
            level.is_valid_gain(),
            small.is_finite() && (0.0..=30.0).contains(&small),
            "{small}"
        );
    }
}

#[test]
fn limiter_range_agrees_with_the_numbers() {
    for value in samples() {
        let level = Decibels::from_bits(value.to_bits());
        assert_eq!(
            level.is_valid_limiter(),
            value.is_finite() && (-12.0..=0.0).contains(&value),
            "{value}"
        );
        let small = value as f32;
        let level = EngineDecibels::from_bits(small.to_bits());
        assert_eq!(
            level.is_valid_limiter(),
            small.is_finite() && (-12.0..=0.0).contains(&small),
            "{small}"
        );
    }
}

#[test]
fn equality_agrees_with_the_numbers() {
    for left in samples() {
        for right in samples() {
            let equal = Decibels::from_bits(left.to_bits())
                .equals(Decibels::from_bits(right.to_bits()));
            assert_eq!(equal, left == right, "{left} {right}");
        }
    }
}

#[test]
fn default_levels_are_the_documented_ones() {
    assert_eq!(f64::from_bits(DEFAULT_GAIN_64), 18.0);
    assert_eq!(f64::from_bits(DEFAULT_LIMITER_64), -3.0);
    assert_eq!(f32::from_bits(DEFAULT_MIC_GAIN_32), 18.0);
    assert_eq!(f32::from_bits(DEFAULT_LIMITER_32), -3.0);
    let settings = MicSettings::default();
    assert_eq!(f32::from_bits(settings.gain_db.bits), 18.0);
    assert_eq!(f32::from_bits(settings.limiter_dbfs.bits), -3.0);
}

#[test]
fn an_unknown_battery_has_no_percentage() {
    assert_eq!(BatteryLevel::default(), BatteryLevel { percent: None, charging: false });
}
