//! Formatting of [`Binary`](crate::Binary) values and parsing of the
//! reversible textual forms.

use vstd::prelude::*;
use vstd::string::StringExecFns;
use crate::error::Error;
use anstyle::{AnsiColor, Color, Style};

pub mod array;
pub mod base64;
pub mod dump;
pub mod string;
pub mod text;

use crate::repr::array::ArrayFormatOptions;
use crate::repr::base64::Base64FormatOptions;
use crate::repr::dump::DumpFormatOptions;
use crate::repr::string::StringFormatOptions;

verus! {

/// The options of one of the representations, as one value: the entry
/// point [`format`] dispatches on the variant.
#[derive(Clone, Debug, PartialEq, Eq)]
pub enum BinaryFormatOptions {
    /// Render the array representation.
    Array(ArrayFormatOptions),
    /// Render the base64 representation.
    Base64(Base64FormatOptions),
    /// Render the dump representation.
    Dump(DumpFormatOptions),
    /// Render the string representation.
    String(StringFormatOptions),
}

impl From<ArrayFormatOptions> for BinaryFormatOptions {
    /// Wrap array options for the dispatching entry point.
    fn from(value: ArrayFormatOptions) -> (r: Self) {
        BinaryFormatOptions::Array(value)
    }
}

impl vstd::std_specs::convert::FromSpecImpl<ArrayFormatOptions> for BinaryFormatOptions {
    open spec fn obeys_from_spec() -> bool {
        true
    }

    open spec fn from_spec(value: ArrayFormatOptions) -> Self {
        BinaryFormatOptions::Array(value)
    }
}

impl From<Base64FormatOptions> for BinaryFormatOptions {
    /// Wrap base64 options for the dispatching entry point.
    fn from(value: Base64FormatOptions) -> (r: Self) {
        BinaryFormatOptions::Base64(value)
    }
}

impl vstd::std_specs::convert::FromSpecImpl<Base64FormatOptions> for BinaryFormatOptions {
    open spec fn obeys_from_spec() -> bool {
        true
    }

    open spec fn from_spec(value: Base64FormatOptions) -> Self {
        BinaryFormatOptions::Base64(value)
    }
}

impl From<DumpFormatOptions> for BinaryFormatOptions {
    /// Wrap dump options for the dispatching entry point.
    fn from(value: DumpFormatOptions) -> (r: Self) {
        BinaryFormatOptions::Dump(value)
    }
}

impl vstd::std_specs::convert::FromSpecImpl<DumpFormatOptions> for BinaryFormatOptions {
    open spec fn obeys_from_spec() -> bool {
        true
    }

    open spec fn from_spec(value: DumpFormatOptions) -> Self {
        BinaryFormatOptions::Dump(value)
    }
}

impl From<StringFormatOptions> for BinaryFormatOptions {
    /// Wrap string options for the dispatching entry point.
    fn from(value: StringFormatOptions) -> (r: Self) {
        BinaryFormatOptions::String(value)
    }
}

impl vstd::std_specs::convert::FromSpecImpl<StringFormatOptions> for BinaryFormatOptions {
    open spec fn obeys_from_spec() -> bool {
        true
    }

    open spec fn from_spec(value: StringFormatOptions) -> Self {
        BinaryFormatOptions::String(value)
    }
}

/// Render `value` in the representation the options select. A dump may
/// not use the binary index radix, and its spacing widths must fit the
/// machine; the other representations have no preconditions.
pub fn format(value: &crate::Binary<'_>, options: BinaryFormatOptions) -> (r: String)
    requires
        options matches BinaryFormatOptions::Dump(o) ==> o.index_radix_format
            != RadixFormat::Binary && (o.spec_data_value_width() + o.value_spacing@.len())
            * o.spec_mid() <= usize::MAX && o.spec_line_index_width()
            + o.line_index_spacing@.len() <= usize::MAX,
    ensures
        (match options {
            BinaryFormatOptions::Array(o) => r@ == crate::repr::array::spec_array_repr(
                value@,
                o.radix_format,
                o.compact,
                o.colored,
            ),
            BinaryFormatOptions::Base64(o) => r@ == (if o.compact {
                crate::repr::base64::spec_base64_standard_no_pad(value@)
            } else {
                crate::repr::base64::spec_base64_standard(value@)
            }),
            BinaryFormatOptions::Dump(o) => r@ == o.spec_dump_repr(value@),
            BinaryFormatOptions::String(o) => r@ == crate::repr::string::spec_string_repr(
                value@,
                o.radix_format,
                o.compact,
                o.colored,
            ),
        }),
{
    match options {
        BinaryFormatOptions::Array(o) => crate::repr::array::array_representation(value, &o),
        BinaryFormatOptions::Base64(o) => crate::repr::base64::base64_representation(value, &o),
        BinaryFormatOptions::Dump(o) => crate::repr::dump::dump_representation(value, &o),
        BinaryFormatOptions::String(o) => crate::repr::string::string_representation(value, &o),
    }
}

/// The radix used to render each byte of a representation.
#[derive(Clone, Copy, Debug, PartialEq, Eq, Structural)]
pub enum RadixFormat {
    /// Radix-2, binary.
    Binary,
    /// Radix-8, octal.
    Octal,
    /// Radix-10, decimal.
    Decimal,
    /// Radix-16, hex with lower-case alpha digits.
    LowerHex,
    /// Radix-16, hex with upper-case alpha digits.
    UpperHex,
}

impl Default for RadixFormat {
    /// The default radix is upper-case hex.
    fn default() -> (r: Self)
        ensures
            r == RadixFormat::UpperHex,
    {
        RadixFormat::UpperHex
    }
}

impl RadixFormat {
    /// The numeric base of the radix.
    pub open spec fn spec_radix(self) -> nat {
        match self {
            RadixFormat::Binary => 2,
            RadixFormat::Octal => 8,
            RadixFormat::Decimal => 10,
            RadixFormat::LowerHex => 16,
            RadixFormat::UpperHex => 16,
        }
    }

    /// Return the radix, as an integer, for the format specifier.
    pub fn radix(&self) -> (r: u32)
        ensures
            r == self.spec_radix(),
    {
        match self {
            RadixFormat::Binary => 2,
            RadixFormat::Octal => 8,
            RadixFormat::Decimal => 10,
            RadixFormat::LowerHex => 16,
            RadixFormat::UpperHex => 16,
        }
    }

    /// The fixed digit count of a padded byte field in this radix.
    pub open spec fn spec_max_width(self) -> nat {
        match self {
            RadixFormat::Binary => 8,
            RadixFormat::Octal => 3,
            RadixFormat::Decimal => 3,
            RadixFormat::LowerHex => 2,
            RadixFormat::UpperHex => 2,
        }
    }

    /// Return the maximum number of digits required for the given radix.
    pub fn max_width(&self) -> (r: usize)
        ensures
            r == self.spec_max_width(),
    {
        match self {
            RadixFormat::Binary => 8,
            RadixFormat::Octal => 3,
            RadixFormat::Decimal => 3,
            RadixFormat::LowerHex => 2,
            RadixFormat::UpperHex => 2,
        }
    }

    /// The radix-identifying character of the prefix.
    pub open spec fn spec_prefix_char(self) -> char {
        match self {
            RadixFormat::Binary => 'b',
            RadixFormat::Octal => 'o',
            RadixFormat::Decimal => 'd',
            RadixFormat::LowerHex => 'x',
            RadixFormat::UpperHex => 'X',
        }
    }

    /// The two characters of the radix prefix: `'0'` then the identifier.
    pub open spec fn spec_prefix_chars(self) -> Seq<char> {
        seq!['0', self.spec_prefix_char()]
    }

    /// Return the radix identifying character; one of 'b', 'd', 'o', 'x', or 'X'.
    pub fn prefix_char(&self) -> (c: char)
        ensures
            c == self.spec_prefix_char(),
    {
        match self {
            RadixFormat::Binary => 'b',
            RadixFormat::Octal => 'o',
            RadixFormat::Decimal => 'd',
            RadixFormat::LowerHex => 'x',
            RadixFormat::UpperHex => 'X',
        }
    }

    /// Return a formatted prefix string for the current radix: the
    /// character '0' followed by the radix identifying character.
    pub fn prefix_str(&self) -> (r: &'static str)
        ensures
            r@ == self.spec_prefix_chars(),
    {
        match self {
            RadixFormat::Binary => {
                proof {
                    reveal_strlit("0b");
                    assert("0b"@ =~= RadixFormat::Binary.spec_prefix_chars());
                }
                "0b"
            },
            RadixFormat::Octal => {
                proof {
                    reveal_strlit("0o");
                    assert("0o"@ =~= RadixFormat::Octal.spec_prefix_chars());
                }
                "0o"
            },
            RadixFormat::Decimal => {
                proof {
                    reveal_strlit("0d");
                    assert("0d"@ =~= RadixFormat::Decimal.spec_prefix_chars());
                }
                "0d"
            },
            RadixFormat::LowerHex => {
                proof {
                    reveal_strlit("0x");
                    assert("0x"@ =~= RadixFormat::LowerHex.spec_prefix_chars());
                }
                "0x"
            },
            RadixFormat::UpperHex => {
                proof {
                    reveal_strlit("0X");
                    assert("0X"@ =~= RadixFormat::UpperHex.spec_prefix_chars());
                }
                "0X"
            },
        }
    }

    /// The radix a specifier character selects: absence or an unknown
    /// character is rejected as an invalid representation.
    pub open spec fn spec_from(specifier: Option<char>) -> Result<RadixFormat, Error> {
        match specifier {
            Option::None => Err(Error::InvalidRepresentation),
            Option::Some(c) => {
                if c == 'b' {
                    Ok(RadixFormat::Binary)
                } else if c == 'd' {
                    Ok(RadixFormat::Decimal)
                } else if c == 'o' {
                    Ok(RadixFormat::Octal)
                } else if c == 'x' {
                    Ok(RadixFormat::LowerHex)
                } else if c == 'X' {
                    Ok(RadixFormat::UpperHex)
                } else {
                    Err(Error::InvalidRepresentation)
                }
            },
        }
    }

    /// Attempt to parse a single character as a radix specifier.
    pub fn from(specifier: Option<char>) -> (r: Result<Self, Error>)
        ensures
            r == Self::spec_from(specifier),
    {
        match specifier {
            Option::None => Err(Error::InvalidRepresentation),
            Option::Some(c) => {
                if c == 'b' {
                    Ok(RadixFormat::Binary)
                } else if c == 'd' {
                    Ok(RadixFormat::Decimal)
                } else if c == 'o' {
                    Ok(RadixFormat::Octal)
                } else if c == 'x' {
                    Ok(RadixFormat::LowerHex)
                } else if c == 'X' {
                    Ok(RadixFormat::UpperHex)
                } else {
                    Err(Error::InvalidRepresentation)
                }
            },
        }
    }

    /// Format a single byte according to the current radix and whether to
    /// pad to the radix's fixed width or use the compact, minimal form.
    pub fn format(&self, byte: &u8, compact: bool) -> (r: String)
        ensures
            r@ == text::spec_byte_field(*self, *byte, compact),
    {
        let field = text::byte_field(*self, *byte, compact);
        chars_to_string(&field)
    }
}

/// A classification of bytes based on ASCII 7-bit and 8-bit standardization.
#[derive(Clone, Copy, Debug, PartialEq, Eq, Structural)]
pub enum ByteKind {
    /// A control character; this includes the ASCII space character.
    Control,
    /// A 7-bit ASCII printable character.
    Printable,
    /// An 8-bit (extended) ASCII printable character.
    PrintableExtended,
    /// An 8-bit (extended) ASCII undefined character.
    Undefined,
}

/// The display category of a byte: control bytes are 0x00 to 0x20, 0x7F,
/// 0xA0 and 0xAD; 7-bit printable bytes are 0x21 to 0x7E; 0x80 to 0x9F is
/// undefined; everything else is 8-bit printable.
pub open spec fn spec_byte_kind(b: u8) -> ByteKind {
    if b <= 0x20 {
        ByteKind::Control
    } else if b <= 0x7E {
        ByteKind::Printable
    } else if b == 0x7F {
        ByteKind::Control
    } else if b <= 0x9F {
        ByteKind::Undefined
    } else if b == 0xA0 {
        ByteKind::Control
    } else if b <= 0xAC {
        ByteKind::PrintableExtended
    } else if b == 0xAD {
        ByteKind::Control
    } else {
        ByteKind::PrintableExtended
    }
}

impl ByteKind {
    /// Classify the byte into its display category.
    pub fn byte_style(byte: u8) -> (r: Self)
        ensures
            r == spec_byte_kind(byte),
    {
        if byte <= 0x20 {
            ByteKind::Control
        } else if byte <= 0x7E {
            ByteKind::Printable
        } else if byte == 0x7F {
            ByteKind::Control
        } else if byte <= 0x9F {
            ByteKind::Undefined
        } else if byte == 0xA0 {
            ByteKind::Control
        } else if byte <= 0xAC {
            ByteKind::PrintableExtended
        } else if byte == 0xAD {
            ByteKind::Control
        } else {
            ByteKind::PrintableExtended
        }
    }

    /// A synonym of [`ByteKind::byte_style`].
    pub fn byte_to_style(byte: u8) -> (r: Self)
        ensures
            r == spec_byte_kind(byte),
    {
        Self::byte_style(byte)
    }
}

/// A classification of the components making up a representation form,
/// used only to select a visual decoration.
#[derive(Clone, Copy, Debug, PartialEq, Eq, Structural)]
pub enum ReprComponentKind {
    /// The radix prefix, `0` followed by the radix character.
    Prefix,
    /// Start/end pairs such as the `[` and `]` of an array or the `"` of a string.
    Delimiter,
    /// Inter-byte separators such as `,` or `_`.
    Separator,
    /// Index values in the dump format that provide line and column numbers.
    Index,
    /// Actual data bytes.
    Value(ByteKind),
}

/// What a parse result holds, seen abstractly: the parsed bytes, or the error.
pub open spec fn spec_parsed<'a>(r: Result<crate::Binary<'a>, Error>) -> Result<Seq<u8>, Error> {
    match r {
        Ok(b) => Ok(b@),
        Err(e) => Err(e),
    }
}

/// Whether styled output is available.
pub fn has_color() -> (r: bool)
    ensures
        r,
{
    true
}

// ------------------------------------------------------------------------
// Styling
// ------------------------------------------------------------------------

/// The text that opens the visual decoration of a component kind.
pub uninterp spec fn style_open_text(k: ReprComponentKind) -> Seq<char>;

/// The text that closes the visual decoration of a component kind.
pub uninterp spec fn style_close_text(k: ReprComponentKind) -> Seq<char>;

/// `text` wrapped in the decoration of component kind `k` when styling is
/// on, and unchanged when it is off.
pub open spec fn spec_deco(k: ReprComponentKind, colored: bool, text: Seq<char>) -> Seq<char> {
    if colored {
        style_open_text(k) + text + style_close_text(k)
    } else {
        text
    }
}

/// Relies on `anstyle::Style`'s `Display` rendering: `{style}` renders the
/// style's ANSI prologue and `{style:#}` its reset epilogue, each a pure
/// function of the style value, which is fixed here per component kind.
#[verifier::external_body]
fn decorate(k: ReprComponentKind, text: &str) -> (r: String)
    ensures
        r@ == style_open_text(k) + text@ + style_close_text(k),
{
    let style = match k {
        ReprComponentKind::Prefix => Style::new(),
        ReprComponentKind::Delimiter => Style::new().dimmed(),
        ReprComponentKind::Separator => Style::new().dimmed(),
        ReprComponentKind::Index => Style::new().dimmed(),
        ReprComponentKind::Value(ByteKind::Control) => Style::new().fg_color(Some(Color::Ansi(AnsiColor::BrightRed))).bold(),
        ReprComponentKind::Value(ByteKind::Printable) => Style::new().fg_color(Some(Color::Ansi(AnsiColor::Green))).bold(),
        ReprComponentKind::Value(ByteKind::PrintableExtended) => Style::new().fg_color(Some(Color::Ansi(AnsiColor::Green))),
        ReprComponentKind::Value(ByteKind::Undefined) => Style::new().fg_color(Some(Color::Ansi(AnsiColor::Yellow))),
    };
    format!("{style}{text}{style:#}")
}

/// Relies on `String::from_iter` collecting a char iterator: the returned
/// string holds exactly the given characters in order.
#[verifier::external_body]
pub(crate) fn chars_to_string(v: &Vec<char>) -> (r: String)
    ensures
        r@ == v@,
{
    v.iter().collect()
}

/// Append `text` to `out`.
pub(crate) fn push_str(out: &mut String, text: &str)
    ensures
        final(out)@ == old(out)@ + text@,
{
    out.append(text);
}

/// Append `text` to `out`, wrapped in the decoration of `k` when
/// `colored` is set.
pub(crate) fn push_deco(out: &mut String, k: ReprComponentKind, colored: bool, text: &str)
    ensures
        final(out)@ == old(out)@ + spec_deco(k, colored, text@),
{
    if colored {
        let d = decorate(k, text);
        out.append(d.as_str());
    } else {
        out.append(text);
    }
}

/// Append `n` spaces to `out`.
pub(crate) fn push_spaces(out: &mut String, n: usize)
    ensures
        final(out)@ == old(out)@ + text::spec_spaces(n as nat),
{
    let mut k: usize = 0;
    proof {
        assert(out@ + text::spec_spaces(0) =~= out@);
    }
    while k < n
        invariant
            0 <= k <= n,
            out@ == old(out)@ + text::spec_spaces(k as nat),
        decreases n - k,
    {
        let ghost before = out@;
        proof {
            reveal_strlit(" ");
            assert(" "@ =~= seq![' ']);
        }
        out.append(" ");
        proof {
            assert(out@ =~= old(out)@ + text::spec_spaces(k as nat + 1));
        }
        k = k + 1;
    }
}

/// Append the characters to `out`, wrapped in the decoration of `k` when
/// `colored` is set.
pub(crate) fn push_deco_chars(out: &mut String, k: ReprComponentKind, colored: bool, text: &Vec<char>)
    ensures
        final(out)@ == old(out)@ + spec_deco(k, colored, text@),
{
    let t = chars_to_string(text);
    push_deco(out, k, colored, t.as_str());
}

} // verus!
