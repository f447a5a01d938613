use windowfun::fixed::{half, offset_scale, scale};

#[test]
fn scale_is_permille_truncated_toward_zero() {
    assert_eq!(scale(100_000, 990), 99_000);
    assert_eq!(scale(100_000, -950), -95_000);
    assert_eq!(scale(-1_500, 990), -1_485);
    // Truncation goes toward zero on both signs.
    assert_eq!(scale(999, -999), -998);
    assert_eq!(scale(-999, 999), -998);
    assert_eq!(scale(999, 999), 998);
    assert_eq!(scale(7, 1000), 7);
    assert_eq!(scale(7, 0), 0);
}

#[test]
fn half_truncates_toward_zero() {
    assert_eq!(half(40_000), 20_000);
    assert_eq!(half(-15_000), -7_500);
    assert_eq!(half(15_001), 7_500);
    assert_eq!(half(-15_001), -7_500);
    assert_eq!(half(0), 0);
}

#[test]
fn offset_scale_applies_sensitivity_then_delta() {
    // Sensitivity 0.5, delta half a second: a 50-pixel delta becomes
    // 12.5 pixels.
    assert_eq!(offset_scale(50_000, 500, 500_000), 12_500);
    assert_eq!(offset_scale(-50_000, 500, 500_000), -12_500);
    // Zero delta or zero sensitivity yields no offset.
    assert_eq!(offset_scale(50_000, 1000, 0), 0);
    assert_eq!(offset_scale(50_000, 0, 1_000_000), 0);
}
