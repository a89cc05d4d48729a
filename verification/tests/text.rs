use oled_progress::decimal::decimal_len;
use oled_progress::text::{CapacityError, TextBuffer, TEXT_CAPACITY};

#[test]
fn new_buffer_is_empty() {
    let buffer = TextBuffer::new();
    assert_eq!(buffer.as_str(), "");
    assert_eq!(buffer.len(), 0);
    assert_eq!(buffer.capacity(), 6);
    assert_eq!(TEXT_CAPACITY, 6);
}

#[test]
fn appending_42_yields_the_text_42() {
    let mut buffer = TextBuffer::new();
    assert_eq!(buffer.append(42), Ok(()));
    assert_eq!(buffer.as_str(), "42");
    assert_eq!(buffer.len(), 2);
}

#[test]
fn appending_zero_yields_one_digit() {
    let mut buffer = TextBuffer::new();
    assert_eq!(buffer.append(0), Ok(()));
    assert_eq!(buffer.as_str(), "0");
}

#[test]
fn numbers_are_appended_one_behind_the_other() {
    let mut buffer = TextBuffer::new();
    assert_eq!(buffer.append(12), Ok(()));
    assert_eq!(buffer.append(345), Ok(()));
    assert_eq!(buffer.as_str(), "12345");
    assert_eq!(buffer.append(6), Ok(()));
    assert_eq!(buffer.as_str(), "123456");
    assert_eq!(buffer.len(), 6);
}

#[test]
fn a_number_that_fills_the_buffer_exactly_is_taken() {
    let mut buffer = TextBuffer::new();
    assert_eq!(buffer.append(999_999), Ok(()));
    assert_eq!(buffer.as_str(), "999999");
}

#[test]
fn a_number_with_too_many_digits_is_refused_whole() {
    let mut buffer = TextBuffer::new();
    assert_eq!(buffer.append(1_000_000), Err(CapacityError { needed: 7, available: 6 }));
    assert_eq!(buffer.as_str(), "");
    assert_eq!(buffer.append(u64::MAX), Err(CapacityError { needed: 20, available: 6 }));
    assert_eq!(buffer.as_str(), "");
}

#[test]
fn a_number_that_does_not_fit_the_rest_leaves_the_text() {
    let mut buffer = TextBuffer::new();
    assert_eq!(buffer.append(42), Ok(()));
    assert_eq!(buffer.append(12_345), Err(CapacityError { needed: 5, available: 4 }));
    assert_eq!(buffer.as_str(), "42");
    assert_eq!(buffer.append(1234), Ok(()));
    assert_eq!(buffer.as_str(), "421234");
    assert_eq!(buffer.append(0), Err(CapacityError { needed: 1, available: 0 }));
    assert_eq!(buffer.as_str(), "421234");
}

#[test]
fn clear_empties_the_buffer_and_may_be_repeated() {
    let mut buffer = TextBuffer::new();
    assert_eq!(buffer.append(987), Ok(()));
    buffer.clear();
    assert_eq!(buffer.as_str(), "");
    assert_eq!(buffer.len(), 0);
    buffer.clear();
    assert_eq!(buffer.as_str(), "");
    assert_eq!(buffer.capacity(), 6);
    assert_eq!(buffer.append(123_456), Ok(()));
    assert_eq!(buffer.as_str(), "123456");
}

#[test]
fn decimal_len_counts_digits() {
    assert_eq!(decimal_len(0), 1);
    assert_eq!(decimal_len(9), 1);
    assert_eq!(decimal_len(10), 2);
    assert_eq!(decimal_len(99), 2);
    assert_eq!(decimal_len(100), 3);
    assert_eq!(decimal_len(999_999), 6);
    assert_eq!(decimal_len(1_000_000), 7);
    assert_eq!(decimal_len(u64::MAX), 20);
}

#[test]
fn decimal_len_agrees_with_formatting() {
    for value in [0u64, 1, 5, 10, 11, 100, 12_345, 99_999, 100_000, 4_294_967_296, u64::MAX - 1] {
        assert_eq!(decimal_len(value), format!("{}", value).len());
    }
}
