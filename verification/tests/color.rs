use pygui::color::{clamp_channel, Alpha, Color, Rgba};
use pygui::error::Error;

fn alpha(value: f32) -> Alpha {
    Alpha::from_bits(value.to_bits())
}

fn number(alpha: Alpha) -> f32 {
    f32::from_bits(alpha.to_bits())
}

#[test]
fn channel_within_range_is_kept() {
    assert_eq!(clamp_channel(0), 0);
    assert_eq!(clamp_channel(1), 1);
    assert_eq!(clamp_channel(128), 128);
    assert_eq!(clamp_channel(255), 255);
}

#[test]
fn channel_below_range_becomes_zero() {
    assert_eq!(clamp_channel(-1), 0);
    assert_eq!(clamp_channel(-300), 0);
    assert_eq!(clamp_channel(i32::MIN), 0);
}

#[test]
fn channel_above_range_becomes_255() {
    assert_eq!(clamp_channel(256), 255);
    assert_eq!(clamp_channel(1000), 255);
    assert_eq!(clamp_channel(i32::MAX), 255);
}

#[test]
fn channels_are_clamped_independently() {
    let out = Color::new(-20, 100, 999, None).normalize();
    assert_eq!(out.red, 0);
    assert_eq!(out.green, 100);
    assert_eq!(out.blue, 255);
    let out = Color::new(300, -1, 7, None).normalize();
    assert_eq!((out.red, out.green, out.blue), (255, 0, 7));
}

#[test]
fn absent_alpha_is_fully_opaque() {
    let out = Color::new(1, 2, 3, None).normalize();
    assert_eq!(number(out.alpha), 1.0);
    assert_eq!(out.alpha, Alpha::opaque());
    assert_eq!(Alpha::opaque().to_bits(), 1.0f32.to_bits());
}

#[test]
fn alpha_within_range_is_kept() {
    for value in [0.0f32, 0.25, 0.5, 0.999, 1.0, f32::MIN_POSITIVE, 1.0e-40] {
        let out = Color::new(0, 0, 0, Some(alpha(value))).normalize();
        assert_eq!(out.alpha.to_bits(), value.to_bits());
    }
}

#[test]
fn alpha_outside_range_is_clamped() {
    assert_eq!(number(alpha(1.5).clamp()), 1.0);
    assert_eq!(number(alpha(1.000_000_1).clamp()), 1.0);
    assert_eq!(number(alpha(f32::MAX).clamp()), 1.0);
    assert_eq!(number(alpha(f32::INFINITY).clamp()), 1.0);
    assert_eq!(number(alpha(-0.5).clamp()), 0.0);
    assert_eq!(number(alpha(-1.0e-40).clamp()), 0.0);
    assert_eq!(number(alpha(f32::NEG_INFINITY).clamp()), 0.0);
    assert_eq!(number(alpha(-0.0).clamp()), 0.0);
}

#[test]
fn alpha_that_is_no_number_becomes_zero() {
    assert_eq!(alpha(f32::NAN).clamp().to_bits(), 0);
    assert_eq!(Alpha::from_bits(0x7F80_0001).clamp().to_bits(), 0);
    assert_eq!(Alpha::from_bits(0xFFFF_FFFF).clamp().to_bits(), 0);
    assert_eq!(Alpha::from_bits(0xFF80_0001).clamp().to_bits(), 0);
}

#[test]
fn alpha_clamp_agrees_with_float_clamp() {
    let mut samples: Vec<f32> = vec![
        0.0,
        -0.0,
        1.0,
        -1.0,
        0.5,
        2.0,
        -2.0,
        f32::NAN,
        f32::INFINITY,
        f32::NEG_INFINITY,
        f32::MAX,
        f32::MIN,
        f32::MIN_POSITIVE,
        f32::EPSILON,
        1.0 - f32::EPSILON,
        1.0 + f32::EPSILON,
    ];
    let mut bits: u32 = 1;
    for _ in 0..4000 {
        bits = bits.wrapping_mul(1_664_525).wrapping_add(1_013_904_223);
        samples.push(f32::from_bits(bits));
    }
    for value in samples {
        let expected = value.max(0.0).min(1.0);
        let got = number(alpha(value).clamp());
        assert_eq!(got, expected, "clamping {:?}", value);
    }
}

#[test]
fn normalize_gives_exact_rgba() {
    let out = Color::new(255, 0, 0, Some(alpha(0.5))).normalize();
    assert_eq!(out, Rgba { red: 255, green: 0, blue: 0, alpha: alpha(0.5) });
    assert_eq!(
        Rgba::opaque_black(),
        Rgba { red: 0, green: 0, blue: 0, alpha: alpha(1.0) }
    );
}

#[test]
fn color_keeps_raw_channels() {
    let color = Color::new(-5, 300, 12, None);
    assert_eq!((color.red, color.green, color.blue), (-5, 300, 12));
    assert_eq!(color.alpha, None);
}

#[test]
fn color_of_three_components_has_no_alpha() {
    assert_eq!(Color::has_alpha(3), Ok(false));
}

#[test]
fn color_of_four_components_has_alpha() {
    assert_eq!(Color::has_alpha(4), Ok(true));
}

#[test]
fn color_of_other_sizes_is_malformed() {
    for components in [0usize, 1, 2, 5, 6, usize::MAX] {
        match Color::has_alpha(components) {
            Err(Error::Validation(message)) => {
                assert_eq!(message, "Expected color (r, g, b[, a])")
            }
            other => panic!("expected a validation error, got {:?}", other),
        }
    }
}
