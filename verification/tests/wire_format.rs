use event_relay::wire::{i32_to_decimal, u64_to_decimal, update_2_payload, update_payload};

#[test]
fn unsigned_decimals() {
    assert_eq!(u64_to_decimal(0), "0");
    assert_eq!(u64_to_decimal(7), "7");
    assert_eq!(u64_to_decimal(10), "10");
    assert_eq!(u64_to_decimal(105), "105");
    assert_eq!(u64_to_decimal(u64::MAX), "18446744073709551615");
}

#[test]
fn signed_decimals() {
    assert_eq!(i32_to_decimal(0), "0");
    assert_eq!(i32_to_decimal(42), "42");
    assert_eq!(i32_to_decimal(-1), "-1");
    assert_eq!(i32_to_decimal(i32::MAX), "2147483647");
    assert_eq!(i32_to_decimal(i32::MIN), "-2147483648");
}

#[test]
fn update_payload_shape() {
    assert_eq!(update_payload(1), "{\"value\":1}");
    assert_eq!(update_payload(12345), "{\"value\":12345}");
}

#[test]
fn update_2_payload_shape() {
    assert_eq!(update_2_payload(42), "{\"value\":42}");
    assert_eq!(update_2_payload(-42), "{\"value\":-42}");
}
