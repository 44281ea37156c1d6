use wrapbin::error::{ByteParseError, Error};
use wrapbin::repr::array::{array_representation, parse_array_representation, ArrayFormatOptions};
use wrapbin::repr::base64::{base64_representation, parse_base64_representation, Base64FormatOptions};
use wrapbin::repr::dump::{dump_representation, parse_dump_representation, DumpColumnWidth, DumpFormatOptions};
use wrapbin::repr::string::{parse_string_representation, string_representation, StringFormatOptions};
use wrapbin::repr::{ByteKind, RadixFormat};
use wrapbin::Binary;

const DUMP_BYTES: [u8; 24] = [
    0x7B, 0xE6, 0xD4, 0xF2, 0x25, 0x5C, 0x62, 0xD3, 0x21, 0x24, 0xAB, 0x7E, 0x40, 0xF1, 0x7B,
    0xCE, 0x17, 0x3C, 0x08, 0xD2, 0xD1, 0xCE, 0xCC, 0x17,
];

// Remove ANSI select-graphic-rendition sequences (ESC '[' ... 'm').
fn strip_styles(s: &str) -> String {
    let mut out = String::new();
    let mut chars = s.chars();
    while let Some(c) = chars.next() {
        if c == '\u{1b}' {
            for d in chars.by_ref() {
                if d == 'm' {
                    break;
                }
            }
        } else {
            out.push(c);
        }
    }
    out
}

#[test]
fn test_literal_scenario_upper_hex_padded() {
    let bytes: Vec<u8> = (0u8..32).collect();
    let repr = array_representation(&Binary::from(bytes), &ArrayFormatOptions::default());
    assert_eq!(
        repr,
        "0X[00, 01, 02, 03, 04, 05, 06, 07, 08, 09, 0A, 0B, 0C, 0D, 0E, 0F, 10, 11, 12, 13, 14, 15, 16, 17, 18, 19, 1A, 1B, 1C, 1D, 1E, 1F]"
    );
}

#[test]
fn test_literal_scenario_lower_hex_compact() {
    let bytes: Vec<u8> = (0u8..32).collect();
    let repr = array_representation(
        &Binary::from(bytes),
        &ArrayFormatOptions::default().with_lower_hex_bytes().compact(true),
    );
    assert_eq!(
        repr,
        "0x[0,1,2,3,4,5,6,7,8,9,a,b,c,d,e,f,10,11,12,13,14,15,16,17,18,19,1a,1b,1c,1d,1e,1f]"
    );
}

#[test]
fn test_classic_dump_scenario() {
    let repr = dump_representation(
        &Binary::from(DUMP_BYTES.as_slice()),
        &DumpFormatOptions::classic_hex_dump(),
    );
    assert_eq!(
        repr,
        vec![
            "0X       00 01 02 03 04 05 06 07 - 08 09 0A 0B 0C 0D 0E 0F ",
            "000000:  7B E6 D4 F2 25 5C 62 D3 - 21 24 AB 7E 40 F1 7B CE ",
            "000010:  17 3C 08 D2 D1 CE CC 17 - ",
        ]
        .join("\n")
    );
}

#[test]
fn test_compact_doc_scenarios() {
    let binary = Binary::from(DUMP_BYTES.as_slice());
    assert_eq!(
        wrapbin::repr::format(&binary, ArrayFormatOptions::default().compact(true).into()),
        "0X[7B,E6,D4,F2,25,5C,62,D3,21,24,AB,7E,40,F1,7B,CE,17,3C,8,D2,D1,CE,CC,17]",
    );
    assert_eq!(
        wrapbin::repr::format(&binary, StringFormatOptions::default().compact(true).into()),
        r#"0X"7BE6D4F2255C62D32124AB7E40F17BCE173C08D2D1CECC17""#,
    );
    assert_eq!(
        wrapbin::repr::format(&binary, Base64FormatOptions::default().into()),
        "e+bU8iVcYtMhJKt+QPF7zhc8CNLRzswX",
    );
}

#[test]
fn test_empty_buffer_every_radix() {
    let radixes = [
        RadixFormat::Binary,
        RadixFormat::Octal,
        RadixFormat::Decimal,
        RadixFormat::LowerHex,
        RadixFormat::UpperHex,
    ];
    let prefixes = ["0b", "0o", "0d", "0x", "0X"];
    let empty = Binary::from(Vec::new());
    for (r, p) in radixes.iter().zip(prefixes.iter()) {
        let a = array_representation(&empty, &ArrayFormatOptions::default().with_byte_radix_format(*r));
        assert_eq!(a, format!("{p}[]"));
        let parsed = parse_array_representation(&a).unwrap();
        assert_eq!(parsed.len(), 0);

        let s = string_representation(&empty, &StringFormatOptions::default().with_byte_radix_format(*r));
        assert_eq!(s, format!("{p}\"\""));
        let parsed = parse_string_representation(&s).unwrap();
        assert_eq!(parsed.len(), 0);
    }
}

#[test]
fn test_round_trip_every_radix_and_mode() {
    let bytes: Vec<u8> = (0u8..=255).collect();
    let radixes = [
        RadixFormat::Binary,
        RadixFormat::Octal,
        RadixFormat::Decimal,
        RadixFormat::LowerHex,
        RadixFormat::UpperHex,
    ];
    for r in radixes {
        for compact in [false, true] {
            let b = Binary::from(bytes.as_slice());
            let a = array_representation(
                &b,
                &ArrayFormatOptions::default().with_byte_radix_format(r).compact(compact),
            );
            assert_eq!(parse_array_representation(&a).unwrap().as_slice(), bytes.as_slice());

            let s = string_representation(
                &b,
                &StringFormatOptions::default().with_byte_radix_format(r).compact(compact),
            );
            assert_eq!(parse_string_representation(&s).unwrap().as_slice(), bytes.as_slice());
        }
    }
}

#[test]
fn test_fixed_width_parse_failure() {
    // a compact string body whose length is no multiple of the field width
    assert_eq!(
        parse_string_representation("0x\"1ff\""),
        Err(Error::InvalidRepresentation)
    );
    assert_eq!(
        parse_string_representation("0b\"0000000\""),
        Err(Error::InvalidRepresentation)
    );
    assert_eq!(
        parse_string_representation("0d\"12345\""),
        Err(Error::InvalidRepresentation)
    );
}

#[test]
fn test_error_discrimination() {
    assert_eq!(parse_array_representation("[]"), Err(Error::MissingRadixPrefix));
    assert_eq!(parse_array_representation("0[]"), Err(Error::InvalidRadixPrefix));
    assert_eq!(parse_array_representation("0x00, ff]"), Err(Error::InvalidArrayBrackets));
    assert_eq!(
        parse_array_representation("0x[1ff]"),
        Err(Error::InvalidByteRepresentation { source: ByteParseError::PosOverflow })
    );
}

#[test]
fn test_parse_empty_field_cause() {
    assert_eq!(
        parse_array_representation("0x[00,,01]"),
        Err(Error::InvalidByteRepresentation { source: ByteParseError::Empty })
    );
}

#[test]
fn test_styling_neutrality() {
    let bytes: Vec<u8> = (0u8..=255).collect();
    let plain = array_representation(
        &Binary::from(bytes.as_slice()),
        &ArrayFormatOptions::default(),
    );
    let styled = array_representation(
        &Binary::from(bytes.as_slice()),
        &ArrayFormatOptions::default().use_color(true),
    );
    // the styled text really carries style decorations...
    assert!(styled.contains('\u{1b}'));
    // ...and stripping them leaves exactly the unstyled text, which
    // parses back to the same bytes
    assert_eq!(strip_styles(&styled), plain);
    assert_eq!(
        parse_array_representation(&strip_styles(&styled)).unwrap().as_slice(),
        bytes.as_slice()
    );

    let plain = string_representation(
        &Binary::from(bytes.as_slice()),
        &StringFormatOptions::default(),
    );
    let styled = string_representation(
        &Binary::from(bytes.as_slice()),
        &StringFormatOptions::default().use_color(true),
    );
    assert!(styled.contains('\u{1b}'));
    assert_eq!(strip_styles(&styled), plain);
    assert_eq!(
        parse_string_representation(&strip_styles(&styled)).unwrap().as_slice(),
        bytes.as_slice()
    );
}

#[test]
fn test_dump_parse_unimplemented() {
    let result = parse_dump_representation("000000:  00 01");
    assert_eq!(result, Err(Error::Unimplemented));
}

#[test]
fn test_parse_base64_invalid() {
    assert_eq!(
        parse_base64_representation("not base64!!"),
        Err(Error::InvalidRepresentation)
    );
}

#[test]
fn test_base64_padding_modes() {
    let binary = Binary::from(b"Hello, World!".as_slice());
    assert_eq!(
        base64_representation(&binary, &Base64FormatOptions::default()),
        "SGVsbG8sIFdvcmxkIQ=="
    );
    assert_eq!(
        base64_representation(&binary, &Base64FormatOptions::default().compact(true)),
        "SGVsbG8sIFdvcmxkIQ"
    );
    assert_eq!(
        parse_base64_representation("SGVsbG8sIFdvcmxkIQ==").unwrap().as_slice(),
        b"Hello, World!"
    );
}

#[test]
fn test_error_messages() {
    assert_eq!(
        Error::MissingRadixPrefix.message(),
        "The binary string representation is missing a radix prefix."
    );
    assert_eq!(
        Error::InvalidByteRepresentation { source: ByteParseError::PosOverflow }.message(),
        "Failed to parse individual byte representation; source error: number too large to fit in target type"
    );
}

#[test]
fn test_byte_classification() {
    assert_eq!(ByteKind::byte_style(0x00), ByteKind::Control);
    assert_eq!(ByteKind::byte_style(0x20), ByteKind::Control);
    assert_eq!(ByteKind::byte_style(0x21), ByteKind::Printable);
    assert_eq!(ByteKind::byte_style(0x7E), ByteKind::Printable);
    assert_eq!(ByteKind::byte_style(0x7F), ByteKind::Control);
    assert_eq!(ByteKind::byte_style(0x80), ByteKind::Undefined);
    assert_eq!(ByteKind::byte_style(0x9F), ByteKind::Undefined);
    assert_eq!(ByteKind::byte_style(0xA0), ByteKind::Control);
    assert_eq!(ByteKind::byte_style(0xA1), ByteKind::PrintableExtended);
    assert_eq!(ByteKind::byte_style(0xAD), ByteKind::Control);
    assert_eq!(ByteKind::byte_style(0xFF), ByteKind::PrintableExtended);
    assert_eq!(ByteKind::byte_to_style(0x41), ByteKind::Printable);
}

#[test]
fn test_radix_primitives() {
    assert_eq!(RadixFormat::Binary.radix(), 2);
    assert_eq!(RadixFormat::Octal.radix(), 8);
    assert_eq!(RadixFormat::Decimal.radix(), 10);
    assert_eq!(RadixFormat::LowerHex.radix(), 16);
    assert_eq!(RadixFormat::UpperHex.radix(), 16);
    assert_eq!(RadixFormat::Binary.max_width(), 8);
    assert_eq!(RadixFormat::Decimal.max_width(), 3);
    assert_eq!(RadixFormat::UpperHex.max_width(), 2);
    assert_eq!(RadixFormat::default(), RadixFormat::UpperHex);
    assert_eq!(RadixFormat::Binary.prefix_str(), "0b");
    assert_eq!(RadixFormat::UpperHex.prefix_str(), "0X");
    assert_eq!(RadixFormat::LowerHex.prefix_char(), 'x');
    assert_eq!(RadixFormat::from(Some('o')), Ok(RadixFormat::Octal));
    assert_eq!(RadixFormat::from(Some('q')), Err(Error::InvalidRepresentation));
    assert_eq!(RadixFormat::from(None), Err(Error::InvalidRepresentation));
    assert_eq!(RadixFormat::Decimal.format(&7u8, false), "007");
    assert_eq!(RadixFormat::Decimal.format(&7u8, true), "7");
    assert_eq!(RadixFormat::Binary.format(&5u8, false), "00000101");
}

#[test]
fn test_dump_one_column_and_ascii() {
    let bytes: [u8; 10] = [0x48, 0x65, 0x6C, 0x6C, 0x6F, 0x00, 0x01, 0x41, 0x42, 0x43];
    let repr = dump_representation(
        &Binary::from(bytes.as_slice()),
        &DumpFormatOptions::default()
            .one_column_of(DumpColumnWidth::Eight)
            .has_index_header_line(false)
            .show_ascii(true),
    );
    assert_eq!(
        repr,
        "000000:  H  e  l  l  o  00 01 A  \n000008:  B  C  "
    );
}

#[test]
fn test_dump_underline_header() {
    let bytes: [u8; 4] = [1, 2, 3, 4];
    let repr = dump_representation(
        &Binary::from(bytes.as_slice()),
        &DumpFormatOptions::hex_dump(),
    );
    let lines: Vec<&str> = repr.split('\n').collect();
    assert_eq!(lines.len(), 3);
    assert_eq!(lines[0], "0X       00 01 02 03 04 05 06 07 │ 08 09 0A 0B 0C 0D 0E 0F ");
    assert_eq!(lines[1], "         ────────────────────────│ ────────────────────────");
    assert_eq!(lines[2], "000000:  01 02 03 04 ");
}

#[test]
fn test_dump_without_line_numbers() {
    let bytes: [u8; 4] = [1, 2, 3, 4];
    let repr = dump_representation(
        &Binary::from(bytes.as_slice()),
        &DumpFormatOptions::classic_hex_dump()
            .has_index_line_numbers(false)
            .has_index_header_line(false),
    );
    assert_eq!(repr, "01 02 03 04 ");
}

#[test]
fn test_dump_presets_agree_on_radix() {
    let b = Binary::from([255u8].as_slice());
    let octal = dump_representation(&b, &DumpFormatOptions::octal_dump());
    assert!(octal.contains("377"));
    let binary = dump_representation(&b, &DumpFormatOptions::binary_dump());
    assert!(binary.contains("11111111"));
    let decimal = dump_representation(&b, &DumpFormatOptions::decimal_dump());
    assert!(decimal.contains("255"));
    let lower = dump_representation(&b, &DumpFormatOptions::lower_hex_dump());
    assert!(lower.contains("ff"));
    let ascii = dump_representation(&Binary::from(b"A".as_slice()), &DumpFormatOptions::ascii_hex_dump());
    assert!(ascii.contains("A "));
}

#[test]
fn test_format_dispatch() {
    let binary = Binary::from([0xABu8, 0xCD].as_slice());
    assert_eq!(
        wrapbin::repr::format(&binary, ArrayFormatOptions::default().into()),
        "0X[AB, CD]"
    );
    assert_eq!(
        wrapbin::repr::format(&binary, StringFormatOptions::default().into()),
        "0X\"AB_CD\""
    );
    assert_eq!(wrapbin::repr::format(&binary, Base64FormatOptions::default().into()), "q80=");
    let dumped = wrapbin::repr::format(&binary, DumpFormatOptions::classic_hex_dump().into());
    assert_eq!(
        dumped,
        "0X       00 01 02 03 04 05 06 07 - 08 09 0A 0B 0C 0D 0E 0F \n000000:  AB CD "
    );
}

#[test]
fn test_mixed_case_hex_parses_either_radix() {
    // parsing accepts both hex cases under either hex radix marker
    let parsed = parse_array_representation("0x[AB, cd]").unwrap();
    assert_eq!(parsed.as_slice(), &[0xAB, 0xCD]);
    let parsed = parse_string_representation("0X\"ab_CD\"").unwrap();
    assert_eq!(parsed.as_slice(), &[0xAB, 0xCD]);
}

#[test]
fn test_parse_accepts_whitespace_around_array_fields() {
    let parsed = parse_array_representation("0d[ 1 ,  2 , 250 ]").unwrap();
    assert_eq!(parsed.as_slice(), &[1, 2, 250]);
}

#[test]
fn test_has_color() {
    assert!(wrapbin::repr::has_color());
}
