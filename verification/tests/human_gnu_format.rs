use wasm_type_samples::util::human_gnu_format::{format_file_size_binary, format_integer};

#[test]
fn test_integer() {
    assert_eq!(format_integer(0), "0");
    assert_eq!(format_integer(1), "1");
    assert_eq!(format_integer(10), "10");
    assert_eq!(format_integer(100), "100");
    assert_eq!(format_integer(1000), "1.0k");
    assert_eq!(format_integer(1100), "1.1k");
    assert_eq!(format_integer(1500), "1.5k");
    assert_eq!(format_integer(2000), "2.0k");
    assert_eq!(format_integer(10_000), "10k");
    assert_eq!(format_integer(100_000), "100k");
    assert_eq!(format_integer(1000_000), "1.0M");
    assert_eq!(format_integer(1500_000), "1.5M");
    assert_eq!(format_integer(10_000_000), "10M");
    assert_eq!(format_integer(150_000_000), "150M");
}

#[test]
fn test_file_size() {
    assert_eq!(format_file_size_binary(0), "0B");
    assert_eq!(format_file_size_binary(1), "1B");
    assert_eq!(format_file_size_binary(10), "10B");
    assert_eq!(format_file_size_binary(100), "100B");
    assert_eq!(format_file_size_binary(1000), "1.0KiB");
    assert_eq!(format_file_size_binary(1100), "1.1KiB");
}

#[test]
fn integer_below_a_thousand_is_printed_whole() {
    assert_eq!(format_integer(999), "999");
    assert_eq!(format_file_size_binary(999), "999B");
}

#[test]
fn one_decimal_place_rounds_to_the_nearest_tenth() {
    assert_eq!(format_integer(1049), "1.0k");
    assert_eq!(format_integer(1051), "1.1k");
    assert_eq!(format_integer(9949), "9.9k");
    assert_eq!(format_integer(9960), "10.0k");
}

#[test]
fn a_tie_rounds_to_the_even_digit() {
    assert_eq!(format_integer(1250), "1.2k");
    assert_eq!(format_integer(1750), "1.8k");
    assert_eq!(format_integer(10_500), "10k");
    assert_eq!(format_integer(11_500), "12k");
}

#[test]
fn largest_values_use_the_last_suffix() {
    assert_eq!(format_integer(u64::MAX), "18447P");
    assert_eq!(format_file_size_binary(u64::MAX), "16384PiB");
    assert_eq!(format_integer(999_999), "1000k");
    assert_eq!(format_file_size_binary(1023), "1.0KiB");
    assert_eq!(format_file_size_binary(1024 * 1024), "1.0MiB");
}
