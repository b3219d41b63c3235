use jxl_core::binary32::{Binary32, NITS_203, NITS_255};

const SAMPLES: [f32; 22] = [
    0.0,
    -0.0,
    1.0,
    -1.0,
    203.0,
    255.0,
    10000.0,
    0.001,
    -0.001,
    1e-45,
    -1e-45,
    1e-39,
    f32::MIN_POSITIVE,
    f32::MAX,
    f32::MIN,
    f32::INFINITY,
    f32::NEG_INFINITY,
    f32::NAN,
    f32::EPSILON,
    202.99998,
    203.00002,
    -203.0,
];

fn b(x: f32) -> Binary32 {
    Binary32::from_bits(x.to_bits())
}

#[test]
fn gt_orders_patterns_as_the_numbers_are_ordered() {
    for &x in &SAMPLES {
        for &y in &SAMPLES {
            assert_eq!(b(x).gt(b(y)), x > y, "{x} > {y}");
        }
    }
    let negative_nan = Binary32::from_bits(0xffc0_0000);
    assert!(negative_nan.is_nan());
    assert!(!negative_nan.gt(b(0.0)));
    assert!(!b(0.0).gt(negative_nan));
}

#[test]
fn is_positive_is_greater_than_zero() {
    for &x in &SAMPLES {
        assert_eq!(b(x).is_positive(), x > 0.0, "{x}");
        assert_eq!(b(x).is_nan(), x.is_nan(), "{x}");
    }
}

#[test]
fn named_patterns_are_the_named_numbers() {
    assert_eq!(NITS_203, 203.0f32.to_bits());
    assert_eq!(NITS_255, 255.0f32.to_bits());
    assert_eq!(Binary32::from_bits(7).bits, 7);
}
