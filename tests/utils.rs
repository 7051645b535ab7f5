use aeolus::utils::limit_u8;

#[test]
fn limit_u8_keeps_values_in_range() {
    assert_eq!(limit_u8(0, 0, 127), 0);
    assert_eq!(limit_u8(64, 0, 127), 64);
    assert_eq!(limit_u8(127, 0, 127), 127);
    assert_eq!(limit_u8(30, 30, 30), 30);
}

#[test]
fn limit_u8_saturates_outside_range() {
    assert_eq!(limit_u8(200, 0, 127), 127);
    assert_eq!(limit_u8(255, 10, 20), 20);
    assert_eq!(limit_u8(3, 10, 20), 10);
    assert_eq!(limit_u8(0, 1, 255), 1);
}

#[test]
fn limit_u8_result_always_within_bounds() {
    for lo in 0..=255u8 {
        for hi in lo..=255u8 {
            for x in [0u8, 1, 63, 64, 127, 128, 254, 255] {
                let r = limit_u8(x, lo, hi);
                assert!(lo <= r && r <= hi);
                if lo <= x && x <= hi {
                    assert_eq!(r, x);
                }
            }
        }
    }
}
