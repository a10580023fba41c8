use audio_monitor::level::{peak_level, FULL_SCALE};

fn patterns_of(values: &[f32]) -> Vec<u32> {
    values.iter().map(|v| v.to_bits()).collect()
}

fn folded_peak(values: &[f32]) -> f32 {
    values.iter().map(|v| v.abs()).fold(0.0f32, f32::max)
}

#[test]
fn full_scale_is_one() {
    assert_eq!(FULL_SCALE, 1.0f32.to_bits());
}

#[test]
fn peak_of_an_empty_buffer_is_zero() {
    assert_eq!(peak_level(&[]), 0);
    assert_eq!(f32::from_bits(peak_level(&[])), 0.0);
}

#[test]
fn peak_is_the_largest_magnitude() {
    let level = peak_level(&patterns_of(&[0.05, -0.02, 0.15]));
    assert_eq!(f32::from_bits(level), 0.15);
    let level = peak_level(&patterns_of(&[0.05, -0.02, 0.08]));
    assert_eq!(f32::from_bits(level), 0.08);
}

#[test]
fn peak_takes_the_magnitude_of_a_negative_sample() {
    let level = peak_level(&patterns_of(&[0.25, -0.75, 0.5]));
    assert_eq!(level, 0.75f32.to_bits());
}

#[test]
fn peak_does_not_depend_on_the_order() {
    let a = peak_level(&patterns_of(&[0.3, 0.9, -0.1]));
    let b = peak_level(&patterns_of(&[-0.1, 0.3, 0.9]));
    let c = peak_level(&patterns_of(&[0.9, -0.1, 0.3]));
    assert_eq!(a, 0.9f32.to_bits());
    assert_eq!(b, a);
    assert_eq!(c, a);
}

#[test]
fn peak_of_silence_is_positive_zero() {
    assert_eq!(peak_level(&patterns_of(&[0.0, -0.0, 0.0])), 0);
    assert_eq!(peak_level(&patterns_of(&[-0.0])), 0);
}

#[test]
fn peak_passes_over_nan() {
    let level = peak_level(&patterns_of(&[0.2, f32::NAN, -0.4, -f32::NAN]));
    assert_eq!(level, 0.4f32.to_bits());
    assert_eq!(peak_level(&patterns_of(&[f32::NAN])), 0);
    assert_eq!(peak_level(&[0x7fff_ffff, 0xffff_ffff, 0x7f80_0001]), 0);
}

#[test]
fn peak_is_not_clamped() {
    let level = peak_level(&patterns_of(&[0.5, -3.5, 1.0]));
    assert_eq!(f32::from_bits(level), 3.5);
    let level = peak_level(&patterns_of(&[0.5, f32::NEG_INFINITY]));
    assert_eq!(f32::from_bits(level), f32::INFINITY);
}

#[test]
fn peak_sees_the_smallest_numbers() {
    let tiny = f32::from_bits(1);
    assert_eq!(peak_level(&patterns_of(&[0.0, -tiny])), 1);
    assert_eq!(
        peak_level(&patterns_of(&[f32::MIN_POSITIVE, tiny])),
        f32::MIN_POSITIVE.to_bits()
    );
}

#[test]
fn peak_agrees_with_a_fold_over_the_numbers() {
    let buffers: Vec<Vec<f32>> = vec![
        vec![],
        vec![0.0],
        vec![0.05, -0.02, 0.15],
        vec![0.05, -0.02, 0.08],
        vec![-1.0, 1.0],
        vec![1e-40, -1e-39, 1e-41],
        vec![f32::NAN, 0.5, f32::NAN],
        vec![f32::MAX, f32::MIN, 0.1],
        vec![0.999, -0.9999, 0.99],
        vec![f32::INFINITY, 1.0],
    ];
    for buffer in buffers {
        let level = peak_level(&patterns_of(&buffer));
        assert_eq!(level, folded_peak(&buffer).to_bits(), "{:?}", buffer);
    }
}

#[test]
fn peak_of_well_formed_samples_is_within_full_scale() {
    let buffer = patterns_of(&[0.3, -1.0, 0.99, 1.0, -0.5]);
    assert_eq!(peak_level(&buffer), FULL_SCALE);
    let buffer = patterns_of(&[0.3, -0.7]);
    assert!(peak_level(&buffer) <= FULL_SCALE);
}
