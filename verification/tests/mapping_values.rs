use twister_midi::{bipolar, linear, speed_curve};

#[test]
fn linear_endpoints_and_midpoint() {
    // v / 127: numerator is the value itself.
    assert_eq!(linear(0).num, 0);
    assert_eq!(linear(64).num, 64);
    assert_eq!(linear(127).num, 127);
    assert!((linear(127).num as f32) / 127.0 == 1.0);
    assert!((linear(0).num as f32) / 127.0 == 0.0);
}

#[test]
fn linear_monotonic_and_bounded_over_domain() {
    let mut prev: u8 = 0;
    for v in 0u8..=127 {
        let r = linear(v).num;
        assert!(r <= 127);
        assert!(r >= prev);
        prev = r;
    }
}

#[test]
fn bipolar_centre_is_exactly_zero() {
    assert_eq!(bipolar(64).num, 0);
    assert!((bipolar(64).num as f32) / 64.0 == 0.0);
}

#[test]
fn bipolar_asymmetry_preserved() {
    // 0 maps to exactly -1; 127 maps to 63/64, not 1.
    assert_eq!(bipolar(0).num, -64);
    assert!((bipolar(0).num as f32) / 64.0 == -1.0);
    assert_eq!(bipolar(127).num, 63);
    assert!((bipolar(127).num as f32) / 64.0 == 0.984375);
}

#[test]
fn bipolar_monotonic_and_bounded_over_domain() {
    let mut prev: i8 = -64;
    for v in 0u8..=127 {
        let r = bipolar(v).num;
        assert!(-64 <= r && r <= 63);
        assert!(r >= prev);
        prev = r;
    }
}

#[test]
fn speed_curve_documented_bounds() {
    // Minimum a quarter at 0, maximum four at 127.
    assert_eq!(speed_curve(0).num, 16129);
    assert!((speed_curve(0).num as f64) / 64516.0 == 0.25);
    assert_eq!(speed_curve(127).num, 258064);
    assert!((speed_curve(127).num as f64) / 64516.0 == 4.0);
}

#[test]
fn speed_curve_exact_formula() {
    // 16129 + 15 * v^2 over 64516.
    assert_eq!(speed_curve(1).num, 16144);
    assert_eq!(speed_curve(64).num, 16129 + 15 * 64 * 64);
    assert_eq!(speed_curve(100).num, 16129 + 150000);
}

#[test]
fn speed_curve_monotonic_and_favours_low_values() {
    let mut prev: u32 = 16129;
    for v in 0u8..=127 {
        let r = speed_curve(v).num;
        assert!(16129 <= r && r <= 258064);
        assert!(r >= prev);
        prev = r;
    }
    // Half the knob's travel covers much less than half the speed range.
    let half = speed_curve(64).num as f64 / 64516.0;
    assert!(half < (0.25 + 4.0) / 2.0);
}
