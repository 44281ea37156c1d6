// The text every long-input test formats: the canonical 445-byte
// lorem-ipsum paragraph, with its expected representations spelled out
// in full so that the assertions are independent of the formatter.
const LOREM_IPSUM_TEXT: &str = "Lorem ipsum dolor sit amet, consectetur adipiscing elit, sed do eiusmod tempor incididunt ut labore et dolore magna aliqua. Ut enim ad minim veniam, quis nostrud exercitation ullamco laboris nisi ut aliquip ex ea commodo consequat. Duis aute irure dolor in reprehenderit in voluptate velit esse cillum dolore eu fugiat nulla pariatur. Excepteur sint occaecat cupidatat non proident, sunt in culpa qui officia deserunt mollit anim id est laborum.";

const LOREM_IPSUM: &str = "0X[4C, 6F, 72, 65, 6D, 20, 69, 70, 73, 75, 6D, 20, 64, 6F, 6C, 6F, 72, 20, 73, 69, 74, 20, 61, 6D, 65, 74, 2C, 20, 63, 6F, 6E, 73, 65, 63, 74, 65, 74, 75, 72, 20, 61, 64, 69, 70, 69, 73, 63, 69, 6E, 67, 20, 65, 6C, 69, 74, 2C, 20, 73, 65, 64, 20, 64, 6F, 20, 65, 69, 75, 73, 6D, 6F, 64, 20, 74, 65, 6D, 70, 6F, 72, 20, 69, 6E, 63, 69, 64, 69, 64, 75, 6E, 74, 20, 75, 74, 20, 6C, 61, 62, 6F, 72, 65, 20, 65, 74, 20, 64, 6F, 6C, 6F, 72, 65, 20, 6D, 61, 67, 6E, 61, 20, 61, 6C, 69, 71, 75, 61, 2E, 20, 55, 74, 20, 65, 6E, 69, 6D, 20, 61, 64, 20, 6D, 69, 6E, 69, 6D, 20, 76, 65, 6E, 69, 61, 6D, 2C, 20, 71, 75, 69, 73, 20, 6E, 6F, 73, 74, 72, 75, 64, 20, 65, 78, 65, 72, 63, 69, 74, 61, 74, 69, 6F, 6E, 20, 75, 6C, 6C, 61, 6D, 63, 6F, 20, 6C, 61, 62, 6F, 72, 69, 73, 20, 6E, 69, 73, 69, 20, 75, 74, 20, 61, 6C, 69, 71, 75, 69, 70, 20, 65, 78, 20, 65, 61, 20, 63, 6F, 6D, 6D, 6F, 64, 6F, 20, 63, 6F, 6E, 73, 65, 71, 75, 61, 74, 2E, 20, 44, 75, 69, 73, 20, 61, 75, 74, 65, 20, 69, 72, 75, 72, 65, 20, 64, 6F, 6C, 6F, 72, 20, 69, 6E, 20, 72, 65, 70, 72, 65, 68, 65, 6E, 64, 65, 72, 69, 74, 20, 69, 6E, 20, 76, 6F, 6C, 75, 70, 74, 61, 74, 65, 20, 76, 65, 6C, 69, 74, 20, 65, 73, 73, 65, 20, 63, 69, 6C, 6C, 75, 6D, 20, 64, 6F, 6C, 6F, 72, 65, 20, 65, 75, 20, 66, 75, 67, 69, 61, 74, 20, 6E, 75, 6C, 6C, 61, 20, 70, 61, 72, 69, 61, 74, 75, 72, 2E, 20, 45, 78, 63, 65, 70, 74, 65, 75, 72, 20, 73, 69, 6E, 74, 20, 6F, 63, 63, 61, 65, 63, 61, 74, 20, 63, 75, 70, 69, 64, 61, 74, 61, 74, 20, 6E, 6F, 6E, 20, 70, 72, 6F, 69, 64, 65, 6E, 74, 2C, 20, 73, 75, 6E, 74, 20, 69, 6E, 20, 63, 75, 6C, 70, 61, 20, 71, 75, 69, 20, 6F, 66, 66, 69, 63, 69, 61, 20, 64, 65, 73, 65, 72, 75, 6E, 74, 20, 6D, 6F, 6C, 6C, 69, 74, 20, 61, 6E, 69, 6D, 20, 69, 64, 20, 65, 73, 74, 20, 6C, 61, 62, 6F, 72, 75, 6D, 2E]";

use wrapbin::error::{ByteParseError, Error};
use wrapbin::repr::array::{array_representation, parse_array_representation, ArrayFormatOptions};
use wrapbin::Binary;

const TEST_ARRAY: [u8; 32] = [
    0, 1, 2, 3, 4, 5, 6, 7, 8, 9, 10, 11, 12, 13, 14, 15, 16, 17, 18, 19, 20, 21, 22, 23, 24, 25,
    26, 27, 28, 29, 30, 31,
];

#[test]
fn test_array_test_parse_error_missing_radix_prefix() {
    let result = parse_array_representation("[]");
    assert_eq!(result, Err(Error::MissingRadixPrefix));
}

#[test]
fn test_array_test_parse_error_invalid_radix_prefix() {
    let result = parse_array_representation("0[]");
    assert_eq!(result, Err(Error::InvalidRadixPrefix));
}

#[test]
fn test_array_test_parse_error_invalid_radix_prefix_2() {
    let result = parse_array_representation("0c[]");
    assert_eq!(result, Err(Error::InvalidRadixPrefix));
}

#[test]
fn test_parse_error_invalid_array_brackets_1() {
    let result = parse_array_representation("0x00, ff]");
    assert_eq!(result, Err(Error::InvalidArrayBrackets));
}

#[test]
fn test_parse_error_invalid_array_brackets_2() {
    let result = parse_array_representation("0x[00, ff");
    assert_eq!(result, Err(Error::InvalidArrayBrackets));
}

#[test]
fn test_array_test_parse_error_invalid_byte_representation_1() {
    let result = parse_array_representation("0x[0x]");
    if let Err(Error::InvalidByteRepresentation { source }) = result {
        assert_eq!(source, ByteParseError::InvalidDigit);
    } else {
        panic!("Expected InvalidByteRepresentation error");
    }
}

#[test]
fn test_array_test_parse_error_invalid_byte_representation_2() {
    let result = parse_array_representation("0x[1ff]");
    if let Err(Error::InvalidByteRepresentation { source }) = result {
        assert_eq!(source, ByteParseError::PosOverflow);
    } else {
        panic!("Expected InvalidByteRepresentation error; got {result:#?}");
    }
}

#[test]
fn test_array_test_parse_error_invalid_byte_representation_3() {
    let result = parse_array_representation("0x[1 ff]");
    if let Err(Error::InvalidByteRepresentation { source }) = result {
        assert_eq!(source, ByteParseError::InvalidDigit);
    } else {
        panic!("Expected InvalidByteRepresentation error; got {result:#?}");
    }
}

#[test]
fn test_parse_array() {
    let parsed = parse_array_representation(LOREM_IPSUM);
    assert!(parsed.is_ok());
    let parsed = parsed.unwrap();
    assert_eq!(parsed.len(), 445);

    assert_eq!(parsed.as_slice(), LOREM_IPSUM_TEXT.as_bytes());
}

#[test]
fn test_parse_compact_array() {
    let lorem_ipsum_compact = LOREM_IPSUM.replace(", ", ",");
    let parsed = parse_array_representation(&lorem_ipsum_compact);
    assert!(parsed.is_ok());
    let parsed = parsed.unwrap();
    assert_eq!(parsed.len(), 445);

    assert_eq!(parsed.as_slice(), LOREM_IPSUM_TEXT.as_bytes());
}

#[test]
fn test_parse_empty_array() {
    let parsed = parse_array_representation("0X[]");
    assert!(parsed.is_ok());
    let parsed = parsed.unwrap();
    assert_eq!(parsed.len(), 0);

    assert_eq!(parsed.as_slice(), &[] as &[u8]);
}

#[test]
fn test_array_representation() {
    let repr = array_representation(
        &Binary::from(LOREM_IPSUM_TEXT.as_bytes()),
        &ArrayFormatOptions::default(),
    );
    assert_eq!(repr, LOREM_IPSUM);
}

#[test]
fn test_array_representation_compact() {
    let repr = array_representation(
        &Binary::from(LOREM_IPSUM_TEXT.as_bytes()),
        &ArrayFormatOptions::default().compact(true),
    );
    assert_eq!(repr, LOREM_IPSUM.replace(", ", ","));
}

#[test]
fn test_array_representation_radix_binary() {
    let binary = Binary::from(TEST_ARRAY.as_slice());

    let repr = array_representation(&binary, &ArrayFormatOptions::default().with_binary_bytes());
    assert_eq!(
        repr,
        r#"0b[00000000, 00000001, 00000010, 00000011, 00000100, 00000101, 00000110, 00000111, 00001000, 00001001, 00001010, 00001011, 00001100, 00001101, 00001110, 00001111, 00010000, 00010001, 00010010, 00010011, 00010100, 00010101, 00010110, 00010111, 00011000, 00011001, 00011010, 00011011, 00011100, 00011101, 00011110, 00011111]"#
    );
}

#[test]
fn test_array_representation_radix_octal() {
    let binary = Binary::from(TEST_ARRAY.as_slice());

    let repr = array_representation(&binary, &ArrayFormatOptions::default().with_octal_bytes());
    assert_eq!(
        repr,
        r#"0o[000, 001, 002, 003, 004, 005, 006, 007, 010, 011, 012, 013, 014, 015, 016, 017, 020, 021, 022, 023, 024, 025, 026, 027, 030, 031, 032, 033, 034, 035, 036, 037]"#
    );
}

#[test]
fn test_array_representation_radix_decimal() {
    let binary = Binary::from(TEST_ARRAY.as_slice());

    let repr = array_representation(&binary, &ArrayFormatOptions::default().with_decimal_bytes());
    assert_eq!(
        repr,
        r#"0d[000, 001, 002, 003, 004, 005, 006, 007, 008, 009, 010, 011, 012, 013, 014, 015, 016, 017, 018, 019, 020, 021, 022, 023, 024, 025, 026, 027, 028, 029, 030, 031]"#
    );
}

#[test]
fn test_array_representation_radix_lower_hex() {
    let binary = Binary::from(TEST_ARRAY.as_slice());

    let repr = array_representation(
        &binary,
        &ArrayFormatOptions::default().with_lower_hex_bytes(),
    );
    assert_eq!(
        repr,
        r#"0x[00, 01, 02, 03, 04, 05, 06, 07, 08, 09, 0a, 0b, 0c, 0d, 0e, 0f, 10, 11, 12, 13, 14, 15, 16, 17, 18, 19, 1a, 1b, 1c, 1d, 1e, 1f]"#
    );
}

#[test]
fn test_array_representation_radix_upper_hex() {
    let binary = Binary::from(TEST_ARRAY.as_slice());

    let repr = array_representation(
        &binary,
        &ArrayFormatOptions::default().with_upper_hex_bytes(),
    );
    assert_eq!(
        repr,
        r#"0X[00, 01, 02, 03, 04, 05, 06, 07, 08, 09, 0A, 0B, 0C, 0D, 0E, 0F, 10, 11, 12, 13, 14, 15, 16, 17, 18, 19, 1A, 1B, 1C, 1D, 1E, 1F]"#
    );
}

const TEST_ARRAY_2: [u8; 32] = [
    0, 2, 4, 6, 8, 10, 12, 14, 16, 18, 20, 24, 28, 30, 32, 34, 36, 38, 40, 42, 44, 46, 48, 50, 52,
    54, 56, 58, 60, 62, 64, 66,
];

#[test]
fn test_colored_array_representation_radix_upper_hex() {
    let binary = Binary::from(TEST_ARRAY_2.as_slice());

    let repr = array_representation(
        &binary,
        &ArrayFormatOptions::default()
            .with_upper_hex_bytes()
            .use_color(true),
    );
    println!("{repr}");
}
