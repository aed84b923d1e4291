use thermostat_eem::fixed::mul_i32;
use thermostat_eem::fixed::scale_down_q16;

#[test]
fn fixed_point_products_are_exact() {
    assert_eq!(mul_i32(-3, 5), -15);
    assert_eq!(mul_i32(65536, 65536), 1 << 32);
    assert_eq!(mul_i32(i32::MIN, i32::MIN), 1i128 << 62);
}

#[test]
fn fixed_point_scaling_truncates_toward_zero() {
    assert_eq!(scale_down_q16(65536), 1);
    assert_eq!(scale_down_q16(65535), 0);
    assert_eq!(scale_down_q16(-65535), 0);
    assert_eq!(scale_down_q16(-65537), -1);
    assert_eq!(scale_down_q16(-131072), -2);
}
