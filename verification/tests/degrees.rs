use radarnix::degrees::{latitude_of, longitude_of};

#[test]
fn angles_round_to_the_nearest_millionth() {
    assert_eq!(latitude_of(51.468f64.to_bits()), Some(51_468_000));
    assert_eq!(longitude_of((-0.45506f64).to_bits()), Some(-455_060));
    assert_eq!(latitude_of(36.2856f64.to_bits()), Some(36_285_600));
    assert_eq!(longitude_of((-106.807f64).to_bits()), Some(-106_807_000));
    assert_eq!(longitude_of(123.456789f64.to_bits()), Some(123_456_789));
    assert_eq!(latitude_of(0.1f64.to_bits()), Some(100_000));
    assert_eq!(latitude_of((-33.9249f64).to_bits()), Some(-33_924_900));
    assert_eq!(latitude_of(45.0f64.to_bits()), Some(45_000_000));
}

#[test]
fn angles_from_bit_patterns() {
    assert_eq!(latitude_of(0x4049_bbe7_6c8b_4396), Some(51_468_000));
    assert_eq!(longitude_of(0xbfdd_1fb3_fa6d_efc8), Some(-455_060));
    assert_eq!(latitude_of(0x4056_8000_0000_0000), Some(90_000_000));
    assert_eq!(longitude_of(0xc066_8000_0000_0000), Some(-180_000_000));
}

#[test]
fn tiny_angles_round_to_zero_or_one() {
    assert_eq!(latitude_of(0.0f64.to_bits()), Some(0));
    assert_eq!(latitude_of((-0.0f64).to_bits()), Some(0));
    assert_eq!(latitude_of(1e-7f64.to_bits()), Some(0));
    assert_eq!(latitude_of(4e-7f64.to_bits()), Some(0));
    assert_eq!(latitude_of(6e-7f64.to_bits()), Some(1));
    assert_eq!(latitude_of((-6e-7f64).to_bits()), Some(-1));
    assert_eq!(latitude_of(1), Some(0));
    assert_eq!(latitude_of(f64::MIN_POSITIVE.to_bits()), Some(0));
    assert_eq!(longitude_of(1e-300f64.to_bits()), Some(0));
}

#[test]
fn angles_at_and_beyond_the_limits() {
    assert_eq!(latitude_of(90.0f64.to_bits()), Some(90_000_000));
    assert_eq!(latitude_of((-90.0f64).to_bits()), Some(-90_000_000));
    assert_eq!(latitude_of(90.0000004f64.to_bits()), Some(90_000_000));
    assert_eq!(latitude_of(90.0000006f64.to_bits()), None);
    assert_eq!(latitude_of(91.0f64.to_bits()), None);
    assert_eq!(latitude_of(180.0f64.to_bits()), None);
    assert_eq!(longitude_of(180.0f64.to_bits()), Some(180_000_000));
    assert_eq!(longitude_of((-180.0f64).to_bits()), Some(-180_000_000));
    assert_eq!(longitude_of(180.000001f64.to_bits()), None);
    assert_eq!(longitude_of(255.9f64.to_bits()), None);
    assert_eq!(longitude_of(256.0f64.to_bits()), None);
    assert_eq!(longitude_of(8846.82f64.to_bits()), None);
    assert_eq!(longitude_of(1e300f64.to_bits()), None);
    assert_eq!(longitude_of(f64::MAX.to_bits()), None);
}

#[test]
fn infinities_and_failed_results_are_no_angles() {
    assert_eq!(latitude_of(f64::INFINITY.to_bits()), None);
    assert_eq!(latitude_of(f64::NEG_INFINITY.to_bits()), None);
    assert_eq!(latitude_of(f64::NAN.to_bits()), None);
    assert_eq!(longitude_of(f64::NAN.to_bits()), None);
    assert_eq!(longitude_of(0x7ff0_0000_0000_0001), None);
}

#[test]
fn rounding_agrees_with_floating_point_on_a_grid() {
    let mut micro: i64 = -180_000_000;
    while micro <= 180_000_000 {
        let degrees = micro as f64 / 1_000_000.0;
        assert_eq!(longitude_of(degrees.to_bits()), Some(micro));
        if micro >= -90_000_000 && micro <= 90_000_000 {
            assert_eq!(latitude_of(degrees.to_bits()), Some(micro));
        } else {
            assert_eq!(latitude_of(degrees.to_bits()), None);
        }
        micro += 123_457;
    }
}
