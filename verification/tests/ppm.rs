use path_tracer::ppm::{header_lines, pixel_line, u64_to_decimal};

#[test]
fn decimal_of_small_numbers() {
    assert_eq!(u64_to_decimal(0), "0".to_string());
    assert_eq!(u64_to_decimal(7), "7".to_string());
    assert_eq!(u64_to_decimal(10), "10".to_string());
    assert_eq!(u64_to_decimal(255), "255".to_string());
}

#[test]
fn decimal_of_large_numbers() {
    assert_eq!(u64_to_decimal(1000000), "1000000".to_string());
    assert_eq!(u64_to_decimal(u64::MAX), "18446744073709551615".to_string());
}

#[test]
fn pixel_line_lists_the_three_channels() {
    assert_eq!(pixel_line(0, 128, 255), "0 128 255\n".to_string());
    assert_eq!(pixel_line(1, 2, 3), "1 2 3\n".to_string());
}

#[test]
fn header_names_format_extent_and_maximum() {
    assert_eq!(header_lines(200, 100), "P3\n200 100\n255\n".to_string());
    assert_eq!(header_lines(1, 1), "P3\n1 1\n255\n".to_string());
}
