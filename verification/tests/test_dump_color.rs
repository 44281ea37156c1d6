use wrapbin::repr::dump::{dump_representation, DumpFormatOptions};
use wrapbin::Binary;

const LOREM_IPSUM_TEXT: &str = "Lorem ipsum dolor sit amet, consectetur adipiscing elit, sed do eiusmod tempor incididunt ut labore et dolore magna aliqua. Ut enim ad minim veniam, quis nostrud exercitation ullamco laboris nisi ut aliquip ex ea commodo consequat. Duis aute irure dolor in reprehenderit in voluptate velit esse cillum dolore eu fugiat nulla pariatur. Excepteur sint occaecat cupidatat non proident, sunt in culpa qui officia deserunt mollit anim id est laborum.";

#[test]
fn test_colored_dump_representation_binary() {
    let repr = dump_representation(
        &Binary::from(LOREM_IPSUM_TEXT.as_bytes()),
        &DumpFormatOptions::default().with_binary_bytes().use_color(true),
    );
    println!("{repr}");
}

#[test]
fn test_colored_dump_representation_octal() {
    let repr = dump_representation(
        &Binary::from(LOREM_IPSUM_TEXT.as_bytes()),
        &DumpFormatOptions::default().with_octal_bytes().use_color(true),
    );
    println!("{repr}");
}

#[test]
fn test_colored_dump_representation_decimal() {
    let repr = dump_representation(
        &Binary::from(LOREM_IPSUM_TEXT.as_bytes()),
        &DumpFormatOptions::default().with_decimal_bytes().use_color(true),
    );
    println!("{repr}");
}

#[test]
fn test_colored_dump_representation_upper_hex() {
    let repr = dump_representation(
        &Binary::from(LOREM_IPSUM_TEXT.as_bytes()),
        &DumpFormatOptions::default().with_upper_hex_bytes().use_color(true),
    );
    println!("{repr}");
}

#[test]
fn test_colored_dump_representation_lower_hex() {
    let repr = dump_representation(
        &Binary::from(LOREM_IPSUM_TEXT.as_bytes()),
        &DumpFormatOptions::default().with_lower_hex_bytes().use_color(true),
    );
    println!("{repr}");
}

#[test]
fn test_colored_dump_representation_ascii() {
    let repr = dump_representation(
        &Binary::from(LOREM_IPSUM_TEXT.as_bytes()),
        &DumpFormatOptions::default()
            .with_upper_hex_bytes()
            .show_ascii(true)
            .use_color(true),
    );
    println!("{repr}");
}

#[test]
fn test_colored_dump_ascii_extended_chart() {
    let chart = Binary::from((0u8..=255).collect::<Vec<u8>>());
    let repr = dump_representation(
        &chart,
        &DumpFormatOptions::default()
            .with_upper_hex_bytes()
            .show_extended_ascii(true)
            .use_color(true),
    );
    println!("{repr}");
}
