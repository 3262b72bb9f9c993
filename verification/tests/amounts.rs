use exchange_requests::amount::{
    kwacha_for, round2, EXCHANGE_RATE_KWACHA_PER_USDC, MICROS_PER_HUNDREDTH, MICROS_PER_UNIT,
};

#[test]
fn rate_is_twenty_six_and_a_half() {
    assert_eq!(EXCHANGE_RATE_KWACHA_PER_USDC, 2650);
    assert_eq!(MICROS_PER_UNIT, 1_000_000);
    assert_eq!(MICROS_PER_HUNDREDTH, 10_000);
}

#[test]
fn round2_keeps_whole_hundredths() {
    assert_eq!(round2(10_000_000), 1000);
    assert_eq!(round2(1_000_000), 100);
    assert_eq!(round2(10_000), 1);
    assert_eq!(round2(0), 0);
    assert_eq!(round2(-10_000_000), -1000);
}

#[test]
fn round2_rounds_to_nearest_hundredth() {
    assert_eq!(round2(1_234_567), 123);
    assert_eq!(round2(123_456_789), 12346);
    assert_eq!(round2(3_333_333), 333);
    assert_eq!(round2(4_999), 0);
    assert_eq!(round2(1), 0);
    assert_eq!(round2(-1), 0);
    assert_eq!(round2(-4_999), 0);
}

#[test]
fn round2_sends_ties_away_from_zero() {
    assert_eq!(round2(5_000), 1);
    assert_eq!(round2(15_000), 2);
    assert_eq!(round2(25_000), 3);
    assert_eq!(round2(-5_000), -1);
    assert_eq!(round2(-25_000), -3);
}

#[test]
fn round2_takes_the_extremes() {
    assert_eq!(round2(i64::MAX), 922_337_203_685_478);
    assert_eq!(round2(i64::MIN), -922_337_203_685_478);
}

#[test]
fn kwacha_for_whole_usdc_is_exact() {
    assert_eq!(kwacha_for(1_000_000), 2650);
    assert_eq!(kwacha_for(10_000_000), 26_500);
    assert_eq!(kwacha_for(999_999_000_000), 2_649_997_350);
    assert_eq!(kwacha_for(0), 0);
}

#[test]
fn kwacha_for_rounds_the_product_once() {
    // 1.234567 USDC is 32.7160255 kwacha; rounding the USDC first would give 32.60.
    assert_eq!(kwacha_for(1_234_567), 3272);
    assert_eq!(kwacha_for(123_456_789), 327_160);
    assert_eq!(kwacha_for(3_333_333), 8833);
    assert_eq!(kwacha_for(4_999), 13);
    assert_eq!(kwacha_for(188), 0);
    assert_eq!(kwacha_for(189), 1);
    assert_eq!(kwacha_for(1), 0);
}

#[test]
fn kwacha_for_sends_ties_away_from_zero() {
    // 0.01 USDC is 0.265 kwacha, half way between 0.26 and 0.27.
    assert_eq!(kwacha_for(10_000), 27);
    assert_eq!(kwacha_for(30_000), 80);
    assert_eq!(kwacha_for(-10_000), -27);
}

#[test]
fn kwacha_for_takes_the_extremes() {
    assert_eq!(kwacha_for(i64::MAX), 24_441_935_897_665_156);
    assert_eq!(kwacha_for(i64::MIN), -24_441_935_897_665_156);
}

#[test]
fn rounding_is_symmetric_about_zero() {
    let samples: Vec<i64> = vec![1, 188, 189, 4_999, 5_000, 10_000, 1_234_567, 999_999_999];
    for micros in samples {
        assert_eq!(round2(-micros), -round2(micros));
        assert_eq!(kwacha_for(-micros), -kwacha_for(micros));
    }
}

#[test]
fn rounded_amount_is_within_half_a_hundredth() {
    let samples: Vec<i64> = vec![1, 4_999, 5_000, 5_001, 14_999, 15_000, 1_234_567, 77_777_777];
    for micros in samples {
        let rounded: i64 = round2(micros);
        let distance: i64 = (micros - rounded * 10_000).abs();
        assert!(2 * distance <= 10_000);
    }
}
