use wrapbin::Binary;

#[test]
fn test_from_u8() {
    let bin = Binary::from(u8::MIN);
    assert_eq!(bin, Binary::from(vec![00_u8]));
    let bin = Binary::from(0x0F_u8);
    assert_eq!(bin, Binary::from(vec![15_u8]));
    let bin = Binary::from(u8::MAX);
    assert_eq!(bin, Binary::from(vec![255_u8]));
}

#[test]
fn test_from_bool() {
    assert_eq!(Binary::from(true), Binary::from(vec![1_u8]));
    assert_eq!(Binary::from(false), Binary::from(vec![0_u8]));
}

#[test]
fn test_from_str_and_string() {
    let from_str = Binary::from("Hello, World!");
    assert!(from_str.is_borrowed());
    assert_eq!(from_str.as_slice(), b"Hello, World!");

    let from_string = Binary::from(String::from("Hello, World!"));
    assert!(from_string.is_owned());
    assert_eq!(from_str, from_string);
}
