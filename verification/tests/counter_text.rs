use doombox::counter_text::format_number;

#[test]
fn zero_is_formatted_as_a_single_digit() {
    let s = format_number(0);
    assert_eq!(s.as_str(), "0");
}

#[test]
fn single_digits_are_formatted() {
    assert_eq!(format_number(7).as_str(), "7");
    assert_eq!(format_number(9).as_str(), "9");
}

#[test]
fn multi_digit_numbers_come_most_significant_first() {
    assert_eq!(format_number(10).as_str(), "10");
    assert_eq!(format_number(12345).as_str(), "12345");
    assert_eq!(format_number(1000).as_str(), "1000");
}

#[test]
fn largest_counter_has_ten_digits() {
    assert_eq!(format_number(u32::MAX).as_str(), "4294967295");
    assert_eq!(format_number(u32::MAX).as_str().len(), 10);
}

#[test]
fn formatted_numbers_read_back() {
    for n in [0u32, 1, 9, 10, 99, 100, 101, 65535, 999_999_999, 1_000_000_000, u32::MAX] {
        let s = format_number(n);
        assert_eq!(s.as_str().parse::<u32>().unwrap(), n);
        assert_eq!(s.as_str(), n.to_string());
    }
}
