const LOREM_IPSUM_TEXT: &str = "Lorem ipsum dolor sit amet, consectetur adipiscing elit, sed do eiusmod tempor incididunt ut labore et dolore magna aliqua. Ut enim ad minim veniam, quis nostrud exercitation ullamco laboris nisi ut aliquip ex ea commodo consequat. Duis aute irure dolor in reprehenderit in voluptate velit esse cillum dolore eu fugiat nulla pariatur. Excepteur sint occaecat cupidatat non proident, sunt in culpa qui officia deserunt mollit anim id est laborum.";

const LOREM_IPSUM: &str = "TG9yZW0gaXBzdW0gZG9sb3Igc2l0IGFtZXQsIGNvbnNlY3RldHVyIGFkaXBpc2NpbmcgZWxpdCwgc2VkIGRvIGVpdXNtb2QgdGVtcG9yIGluY2lkaWR1bnQgdXQgbGFib3JlIGV0IGRvbG9yZSBtYWduYSBhbGlxdWEuIFV0IGVuaW0gYWQgbWluaW0gdmVuaWFtLCBxdWlzIG5vc3RydWQgZXhlcmNpdGF0aW9uIHVsbGFtY28gbGFib3JpcyBuaXNpIHV0IGFsaXF1aXAgZXggZWEgY29tbW9kbyBjb25zZXF1YXQuIER1aXMgYXV0ZSBpcnVyZSBkb2xvciBpbiByZXByZWhlbmRlcml0IGluIHZvbHVwdGF0ZSB2ZWxpdCBlc3NlIGNpbGx1bSBkb2xvcmUgZXUgZnVnaWF0IG51bGxhIHBhcmlhdHVyLiBFeGNlcHRldXIgc2ludCBvY2NhZWNhdCBjdXBpZGF0YXQgbm9uIHByb2lkZW50LCBzdW50IGluIGN1bHBhIHF1aSBvZmZpY2lhIGRlc2VydW50IG1vbGxpdCBhbmltIGlkIGVzdCBsYWJvcnVtLg==";

use wrapbin::repr::base64::{base64_representation, parse_base64_representation, Base64FormatOptions};
use wrapbin::Binary;

#[test]
fn test_parse_base64() {
    let parsed = parse_base64_representation(LOREM_IPSUM);
    assert!(parsed.is_ok());
    let parsed = parsed.unwrap();
    assert_eq!(parsed.len(), 445);

    assert_eq!(parsed.as_slice(), LOREM_IPSUM_TEXT.as_bytes());
}

#[test]
fn test_base64_representation() {
    let repr = base64_representation(
        &Binary::from(LOREM_IPSUM_TEXT.as_bytes()),
        &Base64FormatOptions::default(),
    );
    assert_eq!(repr, LOREM_IPSUM);
}

#[test]
fn test_base64_representation_compact() {
    let repr = base64_representation(
        &Binary::from(LOREM_IPSUM_TEXT.as_bytes()),
        &Base64FormatOptions::default().compact(true),
    );
    assert_eq!(repr, LOREM_IPSUM.trim_end_matches('='));
}
