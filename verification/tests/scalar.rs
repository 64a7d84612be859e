use tattoy::scalar::Scalar;

fn scalar(value: f32) -> Scalar {
    Scalar::from_bits(value.to_bits())
}

#[test]
fn scalar_keeps_its_bits() {
    assert_eq!(scalar(0.7).to_bits(), 0x3f33_3333);
    assert_eq!(Scalar::one().to_bits(), 1.0f32.to_bits());
    assert_eq!(Scalar::zero().to_bits(), 0.0f32.to_bits());
}

#[test]
fn scalar_equality_is_numeric() {
    assert!(scalar(0.0).equals(scalar(-0.0)));
    assert!(scalar(0.25).equals(scalar(0.25)));
    assert!(!scalar(0.25).equals(scalar(0.5)));
    assert!(!scalar(f32::NAN).equals(scalar(f32::NAN)));
    assert!(scalar(f32::NAN).not_a_number());
    assert!(!scalar(f32::INFINITY).not_a_number());
}

#[test]
fn scalar_order_follows_the_numbers() {
    let samples = [
        f32::NEG_INFINITY,
        -3.5,
        -1.0,
        -0.0,
        0.0,
        1.0e-40,
        0.1,
        0.5,
        1.0,
        2.0,
        f32::INFINITY,
        f32::NAN,
    ];
    for left in samples {
        for right in samples {
            assert_eq!(scalar(left).is_below(scalar(right)), left < right, "{left} < {right}");
            assert_eq!(scalar(left).is_at_least(scalar(right)), left >= right, "{left} >= {right}");
            assert_eq!(scalar(left).is_at_most(scalar(right)), left <= right, "{left} <= {right}");
            assert_eq!(scalar(left).equals(scalar(right)), left == right, "{left} == {right}");
        }
    }
}

#[test]
fn scalar_clamps_to_the_unit_range() {
    for value in [-2.0f32, -0.0, 0.0, 0.3, 1.0, 1.5, f32::INFINITY, f32::NEG_INFINITY] {
        let expected = value.clamp(0.0, 1.0);
        assert_eq!(scalar(value).clamp_to_unit().to_bits(), expected.to_bits(), "{value}");
    }
    assert!(scalar(f32::NAN).clamp_to_unit().not_a_number());
}
