use emberclick::number::format_number;

#[test]
fn zero_has_no_separator() {
    assert_eq!(format_number(0), "0");
}

#[test]
fn three_digits_have_no_separator() {
    assert_eq!(format_number(7), "7");
    assert_eq!(format_number(42), "42");
    assert_eq!(format_number(999), "999");
}

#[test]
fn thousands_are_separated() {
    assert_eq!(format_number(1000), "1,000");
    assert_eq!(format_number(1234), "1,234");
    assert_eq!(format_number(12345), "12,345");
    assert_eq!(format_number(123456), "123,456");
    assert_eq!(format_number(1234567), "1,234,567");
    assert_eq!(format_number(1_000_000_000), "1,000,000,000");
}

#[test]
fn largest_value_is_grouped() {
    assert_eq!(format_number(u64::MAX), "18,446,744,073,709,551,615");
}

#[test]
fn commas_removed_read_back_as_the_value() {
    for value in [0u64, 5, 999, 1000, 65_536, 987_654_321, u64::MAX] {
        let shown = format_number(value);
        let digits: String = shown.chars().filter(|c| *c != ',').collect();
        assert_eq!(digits, value.to_string());
        assert_eq!(digits.parse::<u64>().unwrap(), value);
    }
}

#[test]
fn groups_after_the_first_have_three_digits() {
    let shown = format_number(12_345_678_901);
    let groups: Vec<&str> = shown.split(',').collect();
    assert_eq!(groups, vec!["12", "345", "678", "901"]);
}
