use users_api::messages::{created_message, decimal_string, found_message};

#[test]
fn decimal_rendering_of_small_numbers() {
    assert_eq!(decimal_string(0), "0");
    assert_eq!(decimal_string(7), "7");
    assert_eq!(decimal_string(10), "10");
    assert_eq!(decimal_string(42), "42");
    assert_eq!(decimal_string(100), "100");
    assert_eq!(decimal_string(999), "999");
}

#[test]
fn decimal_rendering_of_large_numbers() {
    assert_eq!(decimal_string(1_000_000), "1000000");
    assert_eq!(decimal_string(9_876_543_210), "9876543210");
    assert_eq!(decimal_string(u64::MAX), "18446744073709551615");
}

#[test]
fn found_message_counts_in_decimal() {
    assert_eq!(found_message(0), "Found 0 users");
    assert_eq!(found_message(1), "Found 1 users");
    assert_eq!(found_message(2), "Found 2 users");
    assert_eq!(found_message(12), "Found 12 users");
}

#[test]
fn creation_message_text() {
    assert_eq!(created_message(), "User created successfully");
}
