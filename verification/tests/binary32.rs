use audio_monitor::binary32::{
    abs, greater_than, not_a_number, place, sign_is_set, INFINITY, SIGN_BIT, ZERO,
};

fn numbers_of_every_kind() -> Vec<f32> {
    vec![
        0.0,
        -0.0,
        f32::from_bits(1),
        -f32::from_bits(1),
        f32::from_bits(0x007f_ffff),
        f32::MIN_POSITIVE,
        -f32::MIN_POSITIVE,
        0.001,
        -0.001,
        0.05,
        -0.02,
        0.08,
        0.1,
        0.15,
        0.5,
        1.0,
        -1.0,
        1.5,
        2.0,
        -2.0,
        16_777_216.0,
        f32::MAX,
        f32::MIN,
        f32::INFINITY,
        f32::NEG_INFINITY,
        f32::NAN,
        -f32::NAN,
        f32::from_bits(0x7f80_0001),
        f32::from_bits(0xffff_ffff),
    ]
}

#[test]
fn constants_are_the_patterns_they_name() {
    assert_eq!(ZERO, 0.0f32.to_bits());
    assert_eq!(INFINITY, f32::INFINITY.to_bits());
    assert_eq!(SIGN_BIT, (-0.0f32).to_bits());
}

#[test]
fn abs_clears_the_sign_of_every_kind_of_number() {
    for x in numbers_of_every_kind() {
        assert_eq!(abs(x.to_bits()), x.abs().to_bits());
    }
}

#[test]
fn abs_of_exact_patterns() {
    assert_eq!(abs(0x8000_0000), 0);
    assert_eq!(abs(0xbf80_0000), 0x3f80_0000);
    assert_eq!(abs(0x3f80_0000), 0x3f80_0000);
    assert_eq!(abs(0xffff_ffff), 0x7fff_ffff);
}

#[test]
fn sign_is_set_agrees_with_the_sign_of_the_number() {
    for x in numbers_of_every_kind() {
        assert_eq!(sign_is_set(x.to_bits()), x.is_sign_negative());
    }
}

#[test]
fn not_a_number_agrees_with_is_nan() {
    for x in numbers_of_every_kind() {
        assert_eq!(not_a_number(x.to_bits()), x.is_nan());
    }
}

#[test]
fn not_a_number_at_the_edge() {
    assert!(!not_a_number(0x7f80_0000));
    assert!(not_a_number(0x7f80_0001));
    assert!(!not_a_number(0xff80_0000));
    assert!(not_a_number(0xff80_0001));
    assert!(!not_a_number(0x7f7f_ffff));
}

#[test]
fn greater_than_agrees_with_the_order_of_numbers() {
    for a in numbers_of_every_kind() {
        for b in numbers_of_every_kind() {
            assert_eq!(
                greater_than(a.to_bits(), b.to_bits()),
                a > b,
                "{:?} > {:?}",
                a,
                b
            );
        }
    }
}

#[test]
fn the_two_zeros_are_equal() {
    assert!(!greater_than(0.0f32.to_bits(), (-0.0f32).to_bits()));
    assert!(!greater_than((-0.0f32).to_bits(), 0.0f32.to_bits()));
    assert!(greater_than(f32::from_bits(1).to_bits(), (-0.0f32).to_bits()));
    assert!(greater_than((-0.0f32).to_bits(), (-f32::from_bits(1)).to_bits()));
}

#[test]
fn nothing_compares_with_nan() {
    let nan = f32::NAN.to_bits();
    assert!(!greater_than(nan, 0.0f32.to_bits()));
    assert!(!greater_than(1.0f32.to_bits(), nan));
    assert!(!greater_than(nan, f32::NEG_INFINITY.to_bits()));
    assert!(!greater_than(f32::INFINITY.to_bits(), nan));
    assert!(!greater_than(nan, nan));
}

#[test]
fn infinity_is_above_every_finite_number() {
    assert!(greater_than(f32::INFINITY.to_bits(), f32::MAX.to_bits()));
    assert!(!greater_than(f32::INFINITY.to_bits(), f32::INFINITY.to_bits()));
    assert!(greater_than(f32::MIN.to_bits(), f32::NEG_INFINITY.to_bits()));
}

#[test]
fn negative_numbers_order_against_their_patterns() {
    assert!(greater_than((-1.0f32).to_bits(), (-2.0f32).to_bits()));
    assert!(!greater_than((-2.0f32).to_bits(), (-1.0f32).to_bits()));
    assert!((-1.0f32).to_bits() < (-2.0f32).to_bits());
}

#[test]
fn place_counts_up_and_down_from_zero() {
    assert_eq!(place(0x0000_0000), 0);
    assert_eq!(place(0x8000_0000), 0);
    assert_eq!(place(0x0000_0001), 1);
    assert_eq!(place(0x8000_0001), -1);
    assert_eq!(place(0x3f80_0000), 0x3f80_0000);
    assert_eq!(place(0xbf80_0000), -0x3f80_0000);
    assert_eq!(place(0x7fff_ffff), 0x7fff_ffff);
    assert_eq!(place(0xffff_ffff), -0x7fff_ffff);
}

#[test]
fn place_orders_patterns_as_their_numbers() {
    let numbers: Vec<f32> = numbers_of_every_kind().into_iter().filter(|x| !x.is_nan()).collect();
    for a in &numbers {
        for b in &numbers {
            assert_eq!(place(a.to_bits()) < place(b.to_bits()), a < b, "{:?} < {:?}", a, b);
            assert_eq!(place(a.to_bits()) == place(b.to_bits()), a == b, "{:?} == {:?}", a, b);
        }
    }
}
