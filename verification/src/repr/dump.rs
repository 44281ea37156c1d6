//! A multi-line, column-aligned dump representation of binary data, with
//! an optional header of column indices, optional per-line indices, one or
//! two columns of bytes, and an optional ASCII overlay. The dump is
//! format-only: no parse is provided, and asking for one fails with a
//! distinct not-implemented outcome.

use vstd::prelude::*;
use crate::Binary;
use crate::error::Error;
use crate::repr::{
    push_deco, push_deco_chars, push_spaces, push_str, spec_byte_kind, spec_deco, spec_parsed, ByteKind,
    RadixFormat, ReprComponentKind,
};
use crate::repr::text::{
    byte_field, padded_digits, spec_byte_field, spec_digits_chars, spec_left_align,
    spec_repeat_char, spec_spaces, spec_zero_pad, str_chars,
};

verus! {

/// The number of bytes shown in one column of a dump.
#[derive(Clone, Copy, Debug, PartialEq, Eq, Structural)]
pub enum DumpColumnWidth {
    /// Eight bytes per column.
    Eight,
    /// Sixteen bytes per column.
    Sixteen,
    /// Thirty-two bytes per column.
    ThirtyTwo,
}

impl Default for DumpColumnWidth {
    /// Eight bytes per column.
    fn default() -> (r: Self)
        ensures
            r == DumpColumnWidth::Eight,
    {
        DumpColumnWidth::Eight
    }
}

impl DumpColumnWidth {
    /// The number of bytes in one column.
    pub open spec fn spec_byte_count(self) -> nat {
        match self {
            DumpColumnWidth::Eight => 8,
            DumpColumnWidth::Sixteen => 16,
            DumpColumnWidth::ThirtyTwo => 32,
        }
    }

    /// The number of bytes in one column.
    pub fn byte_count(&self) -> (r: usize)
        ensures
            r == self.spec_byte_count(),
    {
        match self {
            DumpColumnWidth::Eight => 8,
            DumpColumnWidth::Sixteen => 16,
            DumpColumnWidth::ThirtyTwo => 32,
        }
    }

    /// The number of bytes in a full two-column row.
    pub fn two_column_byte_count(&self) -> (r: usize)
        ensures
            r == 2 * self.spec_byte_count(),
    {
        self.byte_count() * 2
    }
}

/// Options controlling the dump representation.
#[derive(Clone, Debug, PartialEq, Eq)]
pub struct DumpFormatOptions {
    /// The radix each byte is rendered in.
    pub radix_format: RadixFormat,
    /// Whether to use compact rendering elsewhere; kept for symmetry with
    /// the other representations, the dump layout itself is always padded.
    pub compact: bool,
    /// Whether to emit the header line of column indices.
    pub index_header_line: bool,
    /// Whether to emit a leading index on each data line.
    pub index_line_numbers: bool,
    /// The radix of line and column indices; binary is not allowed here.
    pub index_radix_format: RadixFormat,
    /// The number of bytes in one column.
    pub column_width: DumpColumnWidth,
    /// Whether a row holds two columns instead of one.
    pub two_columns: bool,
    /// Whether to render printable bytes as their character.
    pub show_ascii: bool,
    /// Whether to also render control and other codes as visible glyphs.
    pub show_extended_ascii: bool,
    /// The text between a line index and the data.
    pub line_index_spacing: String,
    /// The text after every byte field.
    pub value_spacing: String,
    /// The character separating two columns.
    pub column_separator: char,
    /// The character used to underline the header, if any.
    pub column_index_underline: Option<char>,
    /// Whether to decorate components with styles.
    pub colored: bool,
}

impl Default for DumpFormatOptions {
    /// Upper-hex bytes and indices, header on, two columns of eight,
    /// no ASCII overlay, unstyled.
    fn default() -> (r: Self)
        ensures
            r.radix_format == RadixFormat::UpperHex,
            !r.compact,
            r.index_header_line,
            r.index_line_numbers,
            r.index_radix_format == RadixFormat::UpperHex,
            r.column_width == DumpColumnWidth::Eight,
            r.two_columns,
            !r.show_ascii,
            !r.show_extended_ascii,
            r.line_index_spacing@ == ":  "@,
            r.value_spacing@ == " "@,
            r.column_separator == '│',
            r.column_index_underline == Some('─'),
            !r.colored,
    {
        DumpFormatOptions {
            radix_format: RadixFormat::UpperHex,
            compact: false,
            index_header_line: true,
            index_line_numbers: true,
            index_radix_format: RadixFormat::UpperHex,
            column_width: DumpColumnWidth::Eight,
            two_columns: true,
            show_ascii: false,
            show_extended_ascii: false,
            line_index_spacing: String::from_str(":  "),
            value_spacing: String::from_str(" "),
            column_separator: '│',
            column_index_underline: Some('─'),
            colored: false,
        }
    }
}

impl DumpFormatOptions {
    /// The classic dump: upper-hex bytes and indices, two columns of
    /// eight separated by a dash, no underline, no ASCII overlay.
    pub fn classic_hex_dump() -> (r: Self)
        ensures
            r.radix_format == RadixFormat::UpperHex,
            !r.compact,
            r.index_header_line,
            r.index_line_numbers,
            r.index_radix_format == RadixFormat::UpperHex,
            r.column_width == DumpColumnWidth::Eight,
            r.two_columns,
            !r.show_ascii,
            !r.show_extended_ascii,
            r.line_index_spacing@ == ":  "@,
            r.value_spacing@ == " "@,
            r.column_separator == '-',
            r.column_index_underline is None,
            !r.colored,
    {
        Self::default()
            .with_upper_hex_bytes()
            .with_upper_hex_indices()
            .compact(false)
            .two_columns_of(DumpColumnWidth::Eight)
            .no_column_index_underline()
            .separate_columns_with('-')
            .show_ascii(false)
    }

    /// The classic dump with printable bytes shown as characters, control
    /// and extended codes as visible glyphs.
    pub fn ascii_hex_dump() -> (r: Self)
        ensures
            r.radix_format == RadixFormat::UpperHex,
            r.index_radix_format == RadixFormat::UpperHex,
            r.column_width == DumpColumnWidth::Eight,
            r.two_columns,
            r.show_ascii,
            r.show_extended_ascii,
            r.column_separator == '-',
            r.column_index_underline is None,
            r.line_index_spacing@ == ":  "@,
            r.value_spacing@ == " "@,
            r.index_header_line,
            r.index_line_numbers,
            !r.compact,
            !r.colored,
    {
        Self::default()
            .with_upper_hex_bytes()
            .with_upper_hex_indices()
            .compact(false)
            .two_columns_of(DumpColumnWidth::Eight)
            .no_column_index_underline()
            .separate_columns_with('-')
            .show_extended_ascii(true)
    }

    /// An upper-hex dump with the default column separator and underline.
    pub fn hex_dump() -> (r: Self)
        ensures
            r.radix_format == RadixFormat::UpperHex,
            r.index_radix_format == RadixFormat::UpperHex,
            r.column_width == DumpColumnWidth::Eight,
            r.two_columns,
            !r.show_ascii,
            r.column_separator == '│',
            r.column_index_underline == Some('─'),
            r.line_index_spacing@ == ":  "@,
            r.value_spacing@ == " "@,
            r.index_header_line,
            r.index_line_numbers,
            !r.compact,
            !r.show_extended_ascii,
            !r.colored,
    {
        Self::default()
            .with_upper_hex_bytes()
            .with_upper_hex_indices()
            .compact(false)
            .two_columns_of(DumpColumnWidth::Eight)
            .show_ascii(false)
    }

    /// An octal dump: octal bytes and indices.
    pub fn octal_dump() -> (r: Self)
        ensures
            r.radix_format == RadixFormat::Octal,
            r.index_radix_format == RadixFormat::Octal,
            r.column_width == DumpColumnWidth::Eight,
            r.two_columns,
            !r.show_ascii,
            r.line_index_spacing@ == ":  "@,
            r.value_spacing@ == " "@,
            r.index_header_line,
            r.index_line_numbers,
            !r.compact,
            !r.show_extended_ascii,
            r.column_separator == '│',
            r.column_index_underline == Some('─'),
            !r.colored,
    {
        Self::default()
            .with_octal_bytes()
            .with_octal_indices()
            .compact(false)
            .two_columns_of(DumpColumnWidth::Eight)
            .show_ascii(false)
    }

    /// A binary dump: binary bytes under upper-hex indices.
    pub fn binary_dump() -> (r: Self)
        ensures
            r.radix_format == RadixFormat::Binary,
            r.index_radix_format == RadixFormat::UpperHex,
            r.column_width == DumpColumnWidth::Eight,
            r.two_columns,
            !r.show_ascii,
            r.line_index_spacing@ == ":  "@,
            r.value_spacing@ == " "@,
            r.index_header_line,
            r.index_line_numbers,
            !r.compact,
            !r.show_extended_ascii,
            r.column_separator == '│',
            r.column_index_underline == Some('─'),
            !r.colored,
    {
        Self::default()
            .with_binary_bytes()
            .with_upper_hex_indices()
            .compact(false)
            .two_columns_of(DumpColumnWidth::Eight)
            .show_ascii(false)
    }

    /// A decimal dump: decimal bytes and indices.
    pub fn decimal_dump() -> (r: Self)
        ensures
            r.radix_format == RadixFormat::Decimal,
            r.index_radix_format == RadixFormat::Decimal,
            r.column_width == DumpColumnWidth::Eight,
            r.two_columns,
            !r.show_ascii,
            r.line_index_spacing@ == ":  "@,
            r.value_spacing@ == " "@,
            r.index_header_line,
            r.index_line_numbers,
            !r.compact,
            !r.show_extended_ascii,
            r.column_separator == '│',
            r.column_index_underline == Some('─'),
            !r.colored,
    {
        Self::default()
            .with_decimal_bytes()
            .with_decimal_indices()
            .compact(false)
            .two_columns_of(DumpColumnWidth::Eight)
            .show_ascii(false)
    }

    /// A lower-hex dump: lower-hex bytes and indices.
    pub fn lower_hex_dump() -> (r: Self)
        ensures
            r.radix_format == RadixFormat::LowerHex,
            r.index_radix_format == RadixFormat::LowerHex,
            r.column_width == DumpColumnWidth::Eight,
            r.two_columns,
            !r.show_ascii,
            r.line_index_spacing@ == ":  "@,
            r.value_spacing@ == " "@,
            r.index_header_line,
            r.index_line_numbers,
            !r.compact,
            !r.show_extended_ascii,
            r.column_separator == '│',
            r.column_index_underline == Some('─'),
            !r.colored,
    {
        Self::default()
            .with_lower_hex_bytes()
            .with_lower_hex_indices()
            .compact(false)
            .two_columns_of(DumpColumnWidth::Eight)
            .show_ascii(false)
    }

    /// Sets the radix format for each byte in the dump to be one of the
    /// values of the enum [`RadixFormat`].
    pub fn with_byte_radix_format(self, radix_format: RadixFormat) -> (r: Self)
        ensures
            r == (DumpFormatOptions { radix_format, ..self }),
    {
        DumpFormatOptions { radix_format, ..self }
    }

    /// Sets the radix format for each byte in the dump to [`RadixFormat::Binary`].
    pub fn with_binary_bytes(self) -> (r: Self)
        ensures
            r == (DumpFormatOptions { radix_format: RadixFormat::Binary, ..self }),
    {
        self.with_byte_radix_format(RadixFormat::Binary)
    }

    /// Sets the radix format for each byte in the dump to [`RadixFormat::Decimal`].
    pub fn with_decimal_bytes(self) -> (r: Self)
        ensures
            r == (DumpFormatOptions { radix_format: RadixFormat::Decimal, ..self }),
    {
        self.with_byte_radix_format(RadixFormat::Decimal)
    }

    /// Sets the radix format for each byte in the dump to [`RadixFormat::LowerHex`].
    pub fn with_lower_hex_bytes(self) -> (r: Self)
        ensures
            r == (DumpFormatOptions { radix_format: RadixFormat::LowerHex, ..self }),
    {
        self.with_byte_radix_format(RadixFormat::LowerHex)
    }

    /// Sets the radix format for each byte in the dump to [`RadixFormat::Octal`].
    pub fn with_octal_bytes(self) -> (r: Self)
        ensures
            r == (DumpFormatOptions { radix_format: RadixFormat::Octal, ..self }),
    {
        self.with_byte_radix_format(RadixFormat::Octal)
    }

    /// Sets the radix format for each byte in the dump to [`RadixFormat::UpperHex`].
    pub fn with_upper_hex_bytes(self) -> (r: Self)
        ensures
            r == (DumpFormatOptions { radix_format: RadixFormat::UpperHex, ..self }),
    {
        self.with_byte_radix_format(RadixFormat::UpperHex)
    }

    /// Whether to emit the header line of column indices.
    pub fn has_index_header_line(self, header_line: bool) -> (r: Self)
        ensures
            r == (DumpFormatOptions { index_header_line: header_line, ..self }),
    {
        DumpFormatOptions { index_header_line: header_line, ..self }
    }

    /// Underline the header of column indices with the given character.
    pub fn underline_column_index_with(self, underline: char) -> (r: Self)
        ensures
            r == (DumpFormatOptions { column_index_underline: Some(underline), ..self }),
    {
        DumpFormatOptions { column_index_underline: Some(underline), ..self }
    }

    /// Do not underline the header of column indices.
    pub fn no_column_index_underline(self) -> (r: Self)
        ensures
            r == (DumpFormatOptions { column_index_underline: None, ..self }),
    {
        DumpFormatOptions { column_index_underline: None, ..self }
    }

    /// Separate the two columns with the given character.
    pub fn separate_columns_with(self, column_separator: char) -> (r: Self)
        ensures
            r == (DumpFormatOptions { column_separator, ..self }),
    {
        DumpFormatOptions { column_separator, ..self }
    }

    /// Whether to emit a leading index on each data line.
    pub fn has_index_line_numbers(self, line_numbers: bool) -> (r: Self)
        ensures
            r == (DumpFormatOptions { index_line_numbers: line_numbers, ..self }),
    {
        DumpFormatOptions { index_line_numbers: line_numbers, ..self }
    }

    /// Sets the radix format for line and column indices to be one of the
    /// values of the enum [`RadixFormat`].
    pub fn with_index_radix_format(self, index_radix_format: RadixFormat) -> (r: Self)
        ensures
            r == (DumpFormatOptions { index_radix_format, ..self }),
    {
        DumpFormatOptions { index_radix_format, ..self }
    }

    /// Sets the radix format for line and column indices to [`RadixFormat::Decimal`].
    pub fn with_decimal_indices(self) -> (r: Self)
        ensures
            r == (DumpFormatOptions { index_radix_format: RadixFormat::Decimal, ..self }),
    {
        self.with_index_radix_format(RadixFormat::Decimal)
    }

    /// Sets the radix format for line and column indices to [`RadixFormat::LowerHex`].
    pub fn with_lower_hex_indices(self) -> (r: Self)
        ensures
            r == (DumpFormatOptions { index_radix_format: RadixFormat::LowerHex, ..self }),
    {
        self.with_index_radix_format(RadixFormat::LowerHex)
    }

    /// Sets the radix format for line and column indices to [`RadixFormat::Octal`].
    pub fn with_octal_indices(self) -> (r: Self)
        ensures
            r == (DumpFormatOptions { index_radix_format: RadixFormat::Octal, ..self }),
    {
        self.with_index_radix_format(RadixFormat::Octal)
    }

    /// Sets the radix format for line and column indices to [`RadixFormat::UpperHex`].
    pub fn with_upper_hex_indices(self) -> (r: Self)
        ensures
            r == (DumpFormatOptions { index_radix_format: RadixFormat::UpperHex, ..self }),
    {
        self.with_index_radix_format(RadixFormat::UpperHex)
    }

    /// Whether a row holds two columns instead of one.
    pub fn has_two_columns(self, two_columns: bool) -> (r: Self)
        ensures
            r == (DumpFormatOptions { two_columns, ..self }),
    {
        DumpFormatOptions { two_columns, ..self }
    }

    /// Sets the number of bytes in one column.
    pub fn with_column_width(self, column_width: DumpColumnWidth) -> (r: Self)
        ensures
            r == (DumpFormatOptions { column_width, ..self }),
    {
        DumpFormatOptions { column_width, ..self }
    }

    /// One column of the given width.
    pub fn one_column_of(self, column_width: DumpColumnWidth) -> (r: Self)
        ensures
            r == (DumpFormatOptions { two_columns: false, column_width, ..self }),
    {
        DumpFormatOptions { two_columns: false, column_width, ..self }
    }

    /// Two columns of the given width.
    pub fn two_columns_of(self, column_width: DumpColumnWidth) -> (r: Self)
        ensures
            r == (DumpFormatOptions { two_columns: true, column_width, ..self }),
    {
        DumpFormatOptions { two_columns: true, column_width, ..self }
    }

    /// Whether to use compact rendering; the dump layout itself stays padded.
    pub fn compact(self, compact: bool) -> (r: Self)
        ensures
            r == (DumpFormatOptions { compact, ..self }),
    {
        DumpFormatOptions { compact, ..self }
    }

    /// Render printable bytes as their character; enabling the overlay
    /// forces upper-hex bytes so that the numeric fallback stays two
    /// digits wide.
    pub fn show_ascii(self, show_ascii: bool) -> (r: Self)
        ensures
            r == (DumpFormatOptions {
                radix_format: if show_ascii {
                    RadixFormat::UpperHex
                } else {
                    self.radix_format
                },
                show_ascii,
                ..self
            }),
    {
        let mut out = if show_ascii {
            self.with_upper_hex_bytes()
        } else {
            self
        };
        out.show_ascii = show_ascii;
        out
    }

    /// Render printable bytes as characters and the remaining codes as
    /// visible replacement glyphs.
    pub fn show_extended_ascii(self, show_extended_ascii: bool) -> (r: Self)
        ensures
            r == (DumpFormatOptions {
                radix_format: RadixFormat::UpperHex,
                show_ascii: true,
                show_extended_ascii,
                ..self
            }),
    {
        let mut with_ascii = self.show_ascii(true);
        with_ascii.show_extended_ascii = show_extended_ascii;
        with_ascii
    }

    /// Use color to denote each byte's kind according to the ASCII
    /// conventions of [`ByteKind`].
    pub fn use_color(self, colored: bool) -> (r: Self)
        ensures
            r == (DumpFormatOptions { colored, ..self }),
    {
        DumpFormatOptions { colored, ..self }
    }

    /// The number of bytes in one column.
    pub open spec fn spec_mid(self) -> nat {
        self.column_width.spec_byte_count()
    }

    /// The number of bytes in a full row.
    pub open spec fn spec_end(self) -> nat {
        if self.two_columns {
            2 * self.spec_mid()
        } else {
            self.spec_mid()
        }
    }

    /// The bytes where a column may split, and where a row is complete.
    fn byte_counts(&self) -> (r: (usize, usize))
        ensures
            r.0 == self.spec_mid(),
            r.1 == self.spec_end(),
    {
        let mid = self.column_width.byte_count();
        if self.two_columns {
            (mid, self.column_width.two_column_byte_count())
        } else {
            (mid, mid)
        }
    }

    /// The width of a byte field: the radix's fixed digit count.
    pub open spec fn spec_data_value_width(self) -> nat {
        self.radix_format.spec_max_width()
    }

    /// The width of a byte field.
    fn data_value_width(&self) -> (r: usize)
        ensures
            r == self.spec_data_value_width(),
    {
        self.radix_format.max_width()
    }

    /// The width of a line index: eight digits for decimal or octal
    /// indices, six for hex; binary indices are not allowed.
    pub open spec fn spec_line_index_width(self) -> nat {
        match self.index_radix_format {
            RadixFormat::Decimal => 8,
            RadixFormat::Octal => 8,
            RadixFormat::LowerHex => 6,
            RadixFormat::UpperHex => 6,
            RadixFormat::Binary => 0,
        }
    }

    /// The width of a line index.
    fn line_index_width(&self) -> (r: usize)
        requires
            self.index_radix_format != RadixFormat::Binary,
        ensures
            r == self.spec_line_index_width(),
    {
        match self.index_radix_format {
            RadixFormat::Decimal => 8,
            RadixFormat::Octal => 8,
            RadixFormat::LowerHex => 6,
            RadixFormat::UpperHex => 6,
            RadixFormat::Binary => 6,
        }
    }

    /// The text separating the two columns: the separator character and
    /// the value spacing, decorated as a separator.
    pub open spec fn spec_column_separator(self) -> Seq<char> {
        spec_deco(
            ReprComponentKind::Separator,
            self.colored,
            seq![self.column_separator] + self.value_spacing@,
        )
    }

    /// The text separating the two columns.
    fn format_column_separator(&self) -> (r: String)
        ensures
            r@ == self.spec_column_separator(),
    {
        let mut t: Vec<char> = Vec::new();
        t.push(self.column_separator);
        let spacing = str_chars(self.value_spacing.as_str());
        let mut k: usize = 0;
        let sn = spacing.len();
        while k < sn
            invariant
                0 <= k <= sn,
                sn == spacing@.len(),
                spacing@ == self.value_spacing@,
                t@ =~= seq![self.column_separator] + spacing@.subrange(0, k as int),
            decreases sn - k,
        {
            t.push(spacing[k]);
            k = k + 1;
        }
        proof {
            assert(spacing@.subrange(0, sn as int) =~= spacing@);
        }
        let mut out = String::new();
        push_deco_chars(&mut out, ReprComponentKind::Separator, self.colored, &t);
        proof {
            assert(out@ =~= self.spec_column_separator());
        }
        out
    }

    /// The leading index of a data line: the byte offset in the index
    /// radix, zero-padded to the line index width, followed by the line
    /// index spacing, all decorated as an index.
    pub open spec fn spec_line_index(self, index: nat) -> Seq<char> {
        spec_deco(
            ReprComponentKind::Index,
            self.colored,
            spec_zero_pad(
                spec_digits_chars(self.index_radix_format, index),
                self.spec_line_index_width(),
            ) + self.line_index_spacing@,
        )
    }

    /// The leading index of a data line.
    fn format_line_index(&self, index: usize) -> (r: String)
        requires
            self.index_radix_format != RadixFormat::Binary,
        ensures
            r@ == self.spec_line_index(index as nat),
    {
        let mut t = padded_digits(self.index_radix_format, index as u64, self.line_index_width());
        let spacing = str_chars(self.line_index_spacing.as_str());
        let ghost digits = t@;
        let mut k: usize = 0;
        let sn = spacing.len();
        while k < sn
            invariant
                0 <= k <= sn,
                sn == spacing@.len(),
                spacing@ == self.line_index_spacing@,
                t@ =~= digits + spacing@.subrange(0, k as int),
            decreases sn - k,
        {
            t.push(spacing[k]);
            k = k + 1;
        }
        proof {
            assert(spacing@.subrange(0, sn as int) =~= spacing@);
        }
        let mut out = String::new();
        push_deco_chars(&mut out, ReprComponentKind::Index, self.colored, &t);
        proof {
            assert(out@ =~= self.spec_line_index(index as nat));
        }
        out
    }

    /// A header column index: the column number in the index radix,
    /// zero-padded to the byte field width and decorated as an index,
    /// followed by the value spacing.
    pub open spec fn spec_column_index(self, index: nat) -> Seq<char> {
        spec_deco(
            ReprComponentKind::Index,
            self.colored,
            spec_zero_pad(
                spec_digits_chars(self.index_radix_format, index),
                self.spec_data_value_width(),
            ),
        ) + self.value_spacing@
    }

    /// A header column index.
    fn format_column_index(&self, index: usize) -> (r: String)
        ensures
            r@ == self.spec_column_index(index as nat),
    {
        let t = padded_digits(self.index_radix_format, index as u64, self.data_value_width());
        let mut out = String::new();
        push_deco_chars(&mut out, ReprComponentKind::Index, self.colored, &t);
        push_str(&mut out, self.value_spacing.as_str());
        proof {
            assert(out@ =~= self.spec_column_index(index as nat));
        }
        out
    }

    /// A numeric byte field: the byte in the chosen radix at its fixed
    /// width, decorated by the byte's kind, followed by the value spacing.
    pub open spec fn spec_data_value(self, byte: u8) -> Seq<char> {
        spec_deco(
            ReprComponentKind::Value(spec_byte_kind(byte)),
            self.colored,
            spec_byte_field(self.radix_format, byte, false),
        ) + self.value_spacing@
    }

    /// A numeric byte field.
    fn format_data_value(&self, byte: u8) -> (r: String)
        ensures
            r@ == self.spec_data_value(byte),
    {
        let t = byte_field(self.radix_format, byte, false);
        let mut out = String::new();
        push_deco_chars(
            &mut out,
            ReprComponentKind::Value(ByteKind::byte_style(byte)),
            self.colored,
            &t,
        );
        push_str(&mut out, self.value_spacing.as_str());
        proof {
            assert(out@ =~= self.spec_data_value(byte));
        }
        out
    }
}

/// The character a byte displays as in the ASCII overlay, following
/// ISO 8859-1: printable bytes display as themselves; control codes, the
/// no-break space and the delete code display as replacement glyphs when
/// the extended overlay is on; everything else has no character.
pub open spec fn spec_ascii_glyph(byte: u8, ext: bool) -> Option<char> {
    if byte <= 0x20 {
        if ext {
            Some(spec_control_glyph(byte))
        } else {
            None
        }
    } else if byte <= 0x7E {
        Some(byte as char)
    } else if byte == 0x7F {
        if ext {
            Some('␡')
        } else {
            None
        }
    } else if byte <= 0x9F {
        None
    } else if byte == 0xA0 {
        if ext {
            Some('⍽')
        } else {
            None
        }
    } else if byte == 0xAD {
        None
    } else {
        Some(byte as char)
    }
}

/// The visible replacement glyph of a control code at or below 0x20.
pub open spec fn spec_control_glyph(byte: u8) -> char {
    if byte == 0x00 { '␀' } else if byte == 0x01 { '␁' } else if byte == 0x02 { '␂' }
    else if byte == 0x03 { '␃' } else if byte == 0x04 { '␄' } else if byte == 0x05 { '␅' }
    else if byte == 0x06 { '␆' } else if byte == 0x07 { '␇' } else if byte == 0x08 { '␈' }
    else if byte == 0x09 { '␉' } else if byte == 0x0A { '␊' } else if byte == 0x0B { '␋' }
    else if byte == 0x0C { '␌' } else if byte == 0x0D { '␍' } else if byte == 0x0E { '␎' }
    else if byte == 0x0F { '␏' } else if byte == 0x10 { '␐' } else if byte == 0x11 { '␑' }
    else if byte == 0x12 { '␒' } else if byte == 0x13 { '␓' } else if byte == 0x14 { '␔' }
    else if byte == 0x15 { '␕' } else if byte == 0x16 { '␖' } else if byte == 0x17 { '␗' }
    else if byte == 0x18 { '␘' } else if byte == 0x19 { '␙' } else if byte == 0x1A { '␚' }
    else if byte == 0x1B { '␛' } else if byte == 0x1C { '␜' } else if byte == 0x1D { '␝' }
    else if byte == 0x1E { '␞' } else if byte == 0x1F { '␟' } else { '␠' }
}

/// The visible replacement glyph of a control code at or below 0x20.
fn control_glyph(byte: u8) -> (c: char)
    requires
        byte <= 0x20,
    ensures
        c == spec_control_glyph(byte),
{
    if byte == 0x00 { '␀' } else if byte == 0x01 { '␁' } else if byte == 0x02 { '␂' }
    else if byte == 0x03 { '␃' } else if byte == 0x04 { '␄' } else if byte == 0x05 { '␅' }
    else if byte == 0x06 { '␆' } else if byte == 0x07 { '␇' } else if byte == 0x08 { '␈' }
    else if byte == 0x09 { '␉' } else if byte == 0x0A { '␊' } else if byte == 0x0B { '␋' }
    else if byte == 0x0C { '␌' } else if byte == 0x0D { '␍' } else if byte == 0x0E { '␎' }
    else if byte == 0x0F { '␏' } else if byte == 0x10 { '␐' } else if byte == 0x11 { '␑' }
    else if byte == 0x12 { '␒' } else if byte == 0x13 { '␓' } else if byte == 0x14 { '␔' }
    else if byte == 0x15 { '␕' } else if byte == 0x16 { '␖' } else if byte == 0x17 { '␗' }
    else if byte == 0x18 { '␘' } else if byte == 0x19 { '␙' } else if byte == 0x1A { '␚' }
    else if byte == 0x1B { '␛' } else if byte == 0x1C { '␜' } else if byte == 0x1D { '␝' }
    else if byte == 0x1E { '␞' } else if byte == 0x1F { '␟' } else { '␠' }
}

/// The character a byte displays as in the ASCII overlay.
fn ascii_glyph(byte: u8, ext: bool) -> (r: Option<char>)
    ensures
        r == spec_ascii_glyph(byte, ext),
{
    if byte <= 0x20 {
        if ext {
            Some(control_glyph(byte))
        } else {
            None
        }
    } else if byte <= 0x7E {
        Some(byte as char)
    } else if byte == 0x7F {
        if ext {
            Some('␡')
        } else {
            None
        }
    } else if byte <= 0x9F {
        None
    } else if byte == 0xA0 {
        if ext {
            Some('⍽')
        } else {
            None
        }
    } else if byte == 0xAD {
        None
    } else {
        Some(byte as char)
    }
}

impl DumpFormatOptions {
    /// An ASCII-overlay byte field: the byte's display character padded
    /// with spaces to the field width, or its upper-hex digits when it has
    /// none, decorated by the byte's kind and followed by the value
    /// spacing.
    pub open spec fn spec_ascii_field(self, byte: u8) -> Seq<char> {
        match spec_ascii_glyph(byte, self.show_extended_ascii) {
            Some(c) => spec_deco(
                ReprComponentKind::Value(spec_byte_kind(byte)),
                self.colored,
                spec_left_align(seq![c], self.spec_data_value_width()),
            ) + self.value_spacing@,
            None => spec_deco(
                ReprComponentKind::Value(spec_byte_kind(byte)),
                self.colored,
                spec_zero_pad(
                    spec_digits_chars(RadixFormat::UpperHex, byte as nat),
                    self.spec_data_value_width(),
                ),
            ) + self.value_spacing@,
        }
    }

    /// An ASCII-overlay byte field.
    fn format_ascii_char(&self, byte: &u8) -> (r: String)
        ensures
            r@ == self.spec_ascii_field(*byte),
    {
        let w = self.data_value_width();
        let t: Vec<char> = match ascii_glyph(*byte, self.show_extended_ascii) {
            Some(c) => {
                let mut t: Vec<char> = Vec::new();
                t.push(c);
                while t.len() < w
                    invariant
                        1 <= t@.len(),
                        t@.len() <= w || t@.len() == 1,
                        t@ =~= seq![c] + spec_spaces((t@.len() - 1) as nat),
                    decreases w - t.len(),
                {
                    t.push(' ');
                }
                proof {
                    assert(t@ =~= spec_left_align(seq![c], w as nat));
                }
                t
            },
            None => padded_digits(RadixFormat::UpperHex, *byte as u64, w),
        };
        let mut out = String::new();
        push_deco_chars(
            &mut out,
            ReprComponentKind::Value(ByteKind::byte_style(*byte)),
            self.colored,
            &t,
        );
        push_str(&mut out, self.value_spacing.as_str());
        proof {
            assert(out@ =~= self.spec_ascii_field(*byte));
        }
        out
    }

    /// One byte's field in a data line: the ASCII overlay when it is on,
    /// the numeric field otherwise.
    pub open spec fn spec_byte_cell(self, byte: u8) -> Seq<char> {
        if self.show_ascii {
            self.spec_ascii_field(byte)
        } else {
            self.spec_data_value(byte)
        }
    }

    /// What follows the byte at offset `i`: a newline when it completes a
    /// row, the column separator when it completes the first of two
    /// columns, nothing otherwise.
    pub open spec fn spec_after_cell(self, i: nat) -> Seq<char> {
        if ((i + 1) as int % self.spec_end() as int) == 0 {
            seq!['\n']
        } else if self.two_columns && ((i + 1) as int % self.spec_mid() as int) == 0 {
            self.spec_column_separator()
        } else {
            Seq::<char>::empty()
        }
    }

    /// Everything a single byte contributes to the data lines: a line
    /// index at each row start when line numbers are on, the byte's field,
    /// and its row punctuation.
    pub open spec fn spec_dump_cell_line(self, byte: u8, i: nat) -> Seq<char> {
        (if self.index_line_numbers && (i as int % self.spec_end() as int) == 0 {
            self.spec_line_index(i)
        } else {
            Seq::<char>::empty()
        }) + self.spec_byte_cell(byte) + self.spec_after_cell(i)
    }

    /// The data lines from byte offset `i` on.
    pub open spec fn spec_dump_data(self, bytes: Seq<u8>, i: int) -> Seq<char>
        decreases bytes.len() - i,
    {
        if i < 0 || i >= bytes.len() {
            Seq::<char>::empty()
        } else {
            self.spec_dump_cell_line(bytes[i], i as nat) + self.spec_dump_data(bytes, i + 1)
        }
    }

    /// Append to `out` everything the byte at offset `i` contributes.
    fn emit_cell_line(&self, out: &mut String, byte: u8, i: usize, mid: usize, end: usize)
        requires
            self.index_radix_format != RadixFormat::Binary,
            mid == self.spec_mid(),
            end == self.spec_end(),
            i < usize::MAX,
        ensures
            final(out)@ == old(out)@ + self.spec_dump_cell_line(byte, i as nat),
    {
        let ghost start = out@;
        if self.index_line_numbers && i % end == 0 {
            let li = self.format_line_index(i);
            push_str(out, li.as_str());
        }
        if self.show_ascii {
            let cell = self.format_ascii_char(&byte);
            push_str(out, cell.as_str());
        } else {
            let cell = self.format_data_value(byte);
            push_str(out, cell.as_str());
        }
        if (i + 1) % end == 0 {
            proof {
                reveal_strlit("\n");
                assert("\n"@ =~= seq!['\n']);
            }
            push_str(out, "\n");
        } else if self.two_columns && (i + 1) % mid == 0 {
            let sep = self.format_column_separator();
            push_str(out, sep.as_str());
        }
        proof {
            assert(out@ =~= start + self.spec_dump_cell_line(byte, i as nat));
        }
    }

    /// The header columns from column `i` on: each column index, with the
    /// column separator after the first column of a two-column row.
    pub open spec fn spec_header_cols(self, i: int) -> Seq<char>
        decreases self.spec_end() - i,
    {
        if i < 0 || i >= self.spec_end() {
            Seq::<char>::empty()
        } else {
            self.spec_column_index(i as nat) + (if ((i + 1) as int % self.spec_end() as int)
                != 0 && self.two_columns && ((i + 1) as int % self.spec_mid() as int) == 0 {
                self.spec_column_separator()
            } else {
                Seq::<char>::empty()
            }) + self.spec_header_cols(i + 1)
        }
    }

    /// The underline below the header: one repeated-glyph rule per column,
    /// led by spaces under the line index, or nothing when no underline
    /// character is set.
    pub open spec fn spec_underline(self) -> Seq<char> {
        match self.column_index_underline {
            None => Seq::<char>::empty(),
            Some(u) => {
                let rule = spec_deco(
                    ReprComponentKind::Separator,
                    self.colored,
                    spec_repeat_char(
                        u,
                        (self.spec_data_value_width() + self.value_spacing@.len())
                            * self.spec_mid(),
                    ),
                );
                spec_spaces(self.spec_line_index_width() + self.line_index_spacing@.len())
                    + rule + (if self.two_columns {
                    self.spec_column_separator() + rule
                } else {
                    Seq::<char>::empty()
                }) + seq!['\n']
            },
        }
    }

    /// The header: the radix prefix padded to the line index width, the
    /// column indices, and the underline, or nothing when the header is
    /// off.
    pub open spec fn spec_header(self) -> Seq<char> {
        if !self.index_header_line {
            Seq::<char>::empty()
        } else {
            spec_left_align(self.radix_format.spec_prefix_chars(), self.spec_line_index_width())
                + spec_spaces(self.line_index_spacing@.len()) + self.spec_header_cols(0)
                + seq!['\n'] + self.spec_underline()
        }
    }

    /// The full dump representation of `bytes`.
    pub open spec fn spec_dump_repr(self, bytes: Seq<u8>) -> Seq<char> {
        self.spec_header() + self.spec_dump_data(bytes, 0)
    }

    /// The underline rules below the header, without their leading
    /// spaces, or nothing when no underline character is set.
    fn format_header_underline(&self) -> (r: Option<String>)
        requires
            (self.spec_data_value_width() + self.value_spacing@.len()) * self.spec_mid()
                <= usize::MAX,
        ensures
            match r {
                Some(s) => self.spec_underline() == spec_spaces(
                    self.spec_line_index_width() + self.line_index_spacing@.len(),
                ) + s@,
                None => self.spec_underline() == Seq::<char>::empty(),
            },
    {
        match self.column_index_underline {
            None => None,
            Some(u) => {
                let mid = self.column_width.byte_count();
                let vsl = self.value_spacing.as_str().unicode_len();
                proof {
                    assert((self.spec_data_value_width() + vsl as nat) * self.spec_mid()
                        <= usize::MAX);
                }
                let uw = (self.data_value_width() + vsl) * mid;
                let mut rule: Vec<char> = Vec::new();
                let mut k: usize = 0;
                while k < uw
                    invariant
                        0 <= k <= uw,
                        rule@ =~= spec_repeat_char(u, k as nat),
                    decreases uw - k,
                {
                    rule.push(u);
                    k = k + 1;
                }
                let mut out = String::new();
                push_deco_chars(&mut out, ReprComponentKind::Separator, self.colored, &rule);
                if self.two_columns {
                    let sep = self.format_column_separator();
                    push_str(&mut out, sep.as_str());
                    push_deco_chars(&mut out, ReprComponentKind::Separator, self.colored, &rule);
                }
                proof {
                    reveal_strlit("\n");
                    assert("\n"@ =~= seq!['\n']);
                }
                push_str(&mut out, "\n");
                proof {
                    assert(self.spec_underline() =~= spec_spaces(
                        self.spec_line_index_width() + self.line_index_spacing@.len(),
                    ) + out@);
                }
                Some(out)
            },
        }
    }
}

/// Render `value` in the dump representation under the given options.
/// The index radix may not be binary: its field widths would be
/// unreasonable, so asking for it is a caller error, not a data error.
#[verifier::rlimit(100)]
pub fn dump_representation(value: &Binary<'_>, options: &DumpFormatOptions) -> (r: String)
    requires
        options.index_radix_format != RadixFormat::Binary,
        (options.spec_data_value_width() + options.value_spacing@.len()) * options.spec_mid()
            <= usize::MAX,
        options.spec_line_index_width() + options.line_index_spacing@.len() <= usize::MAX,
    ensures
        r@ == options.spec_dump_repr(value@),
{
    let bytes = value.as_slice();
    let n = bytes.len();
    let (mid, end) = options.byte_counts();
    let mut out = String::new();

    if options.index_header_line {
        let liw = options.line_index_width();
        let spl = options.line_index_spacing.as_str().unicode_len();
        push_str(&mut out, options.radix_format.prefix_str());
        push_spaces(&mut out, liw - 2 + spl);
        proof {
            assert(out@ =~= spec_left_align(
                options.radix_format.spec_prefix_chars(),
                options.spec_line_index_width(),
            ) + spec_spaces(options.line_index_spacing@.len()));
        }
        let ghost hstart = out@;
        let mut i: usize = 0;
        proof {
            assert(out@ + options.spec_header_cols(0) =~= hstart + options.spec_header_cols(0));
        }
        while i < end
            invariant
                0 <= i <= end,
                mid == options.spec_mid(),
                end == options.spec_end(),
                out@ + options.spec_header_cols(i as int) == hstart + options.spec_header_cols(
                    0,
                ),
            decreases end - i,
        {
            let ghost before = out@;
            let col = options.format_column_index(i);
            push_str(&mut out, col.as_str());
            if (i + 1) % end != 0 && options.two_columns && (i + 1) % mid == 0 {
                let sep = options.format_column_separator();
                push_str(&mut out, sep.as_str());
            }
            proof {
                assert(out@ + options.spec_header_cols(i as int + 1) =~= before
                    + options.spec_header_cols(i as int));
            }
            i = i + 1;
        }
        proof {
            reveal_strlit("\n");
            assert("\n"@ =~= seq!['\n']);
        }
        push_str(&mut out, "\n");
        match options.format_header_underline() {
            Some(u) => {
                let liw2 = options.line_index_width();
                let spl2 = options.line_index_spacing.as_str().unicode_len();
                push_spaces(&mut out, liw2 + spl2);
                push_str(&mut out, u.as_str());
            },
            None => {},
        }
        proof {
            assert(out@ =~= options.spec_header());
        }
    }
    proof {
        assert(out@ =~= options.spec_header());
        assert(out@ + options.spec_dump_data(bytes@, 0) =~= options.spec_dump_repr(bytes@));
    }

    let mut i: usize = 0;
    while i < n
        invariant
            0 <= i <= n,
            n == bytes@.len(),
            mid == options.spec_mid(),
            end == options.spec_end(),
            options.index_radix_format != RadixFormat::Binary,
            out@ + options.spec_dump_data(bytes@, i as int) == options.spec_dump_repr(bytes@),
        decreases n - i,
    {
        let ghost before = out@;
        let b = *vstd::slice::slice_index_get(bytes, i);
        options.emit_cell_line(&mut out, b, i, mid, end);
        proof {
            assert(out@ + options.spec_dump_data(bytes@, i as int + 1) =~= before
                + options.spec_dump_data(bytes@, i as int));
        }
        i = i + 1;
    }
    proof {
        assert(out@ =~= options.spec_dump_repr(value@));
    }
    out
}

/// The dump is not reversible: parsing always fails with the distinct
/// not-implemented outcome, never with a malformed-input error.
pub fn parse_dump_representation<'a>(s: &'a str) -> (r: Result<Binary<'a>, Error>)
    ensures
        spec_parsed(r) == Err::<Seq<u8>, Error>(Error::Unimplemented),
{
    let _ = s;
    Err(Error::Unimplemented)
}

} // verus!
