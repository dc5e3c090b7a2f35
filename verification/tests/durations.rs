use cow::duration::{from_ms, to_ms};

#[test]
fn seconds_minutes_hours_days() {
    assert_eq!(to_ms("1s"), Some(1000));
    assert_eq!(to_ms("1m"), Some(60_000));
    assert_eq!(to_ms("1h"), Some(3_600_000));
    assert_eq!(to_ms("1d"), Some(86_400_000));
    assert_eq!(to_ms("90s"), Some(90_000));
    assert_eq!(to_ms("007s"), Some(7000));
}

#[test]
fn units_add_up_in_any_order() {
    assert_eq!(to_ms("1d2h3m4s"), Some(86_400_000 + 7_200_000 + 180_000 + 4000));
    assert_eq!(to_ms("4s3m2h1d"), Some(86_400_000 + 7_200_000 + 180_000 + 4000));
    assert_eq!(to_ms("1s1s1s"), Some(3000));
    assert_eq!(to_ms("10m5m"), Some(900_000));
}

#[test]
fn empty_text_and_bare_units_are_zero() {
    assert_eq!(to_ms(""), Some(0));
    assert_eq!(to_ms("s"), Some(0));
    assert_eq!(to_ms("smhd"), Some(0));
    assert_eq!(to_ms("0s"), Some(0));
}

#[test]
fn digits_after_the_last_unit_count_for_nothing() {
    assert_eq!(to_ms("5"), Some(0));
    assert_eq!(to_ms("1s5"), Some(1000));
    assert_eq!(to_ms("99999999999999999999999999"), Some(0));
}

#[test]
fn other_characters_are_refused() {
    assert_eq!(to_ms("1x"), None);
    assert_eq!(to_ms("1 s"), None);
    assert_eq!(to_ms("-1s"), None);
    assert_eq!(to_ms("1S"), None);
    assert_eq!(to_ms("1.5h"), None);
    assert_eq!(to_ms("1s!"), None);
    assert_eq!(to_ms("٣s"), None);
}

#[test]
fn sums_beyond_an_i32_are_refused() {
    assert_eq!(to_ms("24d"), Some(2_073_600_000));
    assert_eq!(to_ms("2147483s"), Some(2_147_483_000));
    assert_eq!(to_ms("24d20h31m23s"), Some(2_147_483_000));
    assert_eq!(to_ms("25d"), None);
    assert_eq!(to_ms("2147484s"), None);
    assert_eq!(to_ms("24d20h31m24s"), None);
    assert_eq!(to_ms("99999999999999999999999999s"), None);
    assert_eq!(to_ms("4294967296d"), None);
    assert_eq!(to_ms("25d1x"), None);
}

#[test]
fn spans_are_written_in_parts() {
    assert_eq!(from_ms(0), "0d 0h 0m 0s");
    assert_eq!(from_ms(999), "0d 0h 0m 0s");
    assert_eq!(from_ms(1000), "0d 0h 0m 1s");
    assert_eq!(from_ms(61_000), "0d 0h 1m 1s");
    assert_eq!(from_ms(3_600_000), "0d 1h 0m 0s");
    assert_eq!(from_ms(86_400_000), "1d 0h 0m 0s");
    assert_eq!(from_ms(86_400_000 + 7_200_000 + 180_000 + 4000), "1d 2h 3m 4s");
    assert_eq!(from_ms(i32::MAX), "24d 20h 31m 23s");
}

#[test]
fn negative_spans_have_negative_parts() {
    assert_eq!(from_ms(-1), "0d 0h 0m 0s");
    assert_eq!(from_ms(-1000), "0d 0h 0m -1s");
    assert_eq!(from_ms(-61_000), "0d 0h -1m -1s");
    assert_eq!(from_ms(-90_061_000), "-1d -1h -1m -1s");
    assert_eq!(from_ms(i32::MIN), "-24d -20h -31m -23s");
}

#[test]
fn what_is_read_is_written_back() {
    let ms = to_ms("1d2h3m4s").unwrap();
    assert_eq!(from_ms(ms), "1d 2h 3m 4s");
}
