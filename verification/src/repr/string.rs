//! A string-like representation of binary data: byte fields separated by
//! underscores and enclosed in double quotes, after an identifying radix
//! prefix. The compact form drops the underscores but keeps every field at
//! the radix's fixed width — decoding the compact form relies on that
//! constant width to re-slice the body, a deliberate asymmetry from the
//! array representation.

use vstd::prelude::*;
use crate::Binary;
use crate::error::Error;
use crate::repr::{
    push_deco, push_deco_chars, spec_byte_kind, spec_deco, spec_parsed, ByteKind, RadixFormat,
    ReprComponentKind,
};
use crate::repr::text::{
    byte_field, lemma_byte_field_shape, lemma_digit_char_plain, lemma_join_push,
    lemma_parse_fields_round_trip, lemma_split_of_join, parse_field, spec_byte_field, spec_char_val,
    spec_join, spec_parse_field, spec_parse_fields, spec_split, split_chars, str_chars,
};

verus! {

/// Options controlling the string representation.
#[derive(Clone, Copy, Debug, PartialEq, Eq, Structural)]
pub struct StringFormatOptions {
    /// The radix each byte is rendered in.
    pub radix_format: RadixFormat,
    /// Whether to drop the separating underscores.
    pub compact: bool,
    /// Whether to decorate components with styles.
    pub colored: bool,
}

impl Default for StringFormatOptions {
    /// Upper-hex, separated, unstyled.
    fn default() -> (r: Self)
        ensures
            r == (StringFormatOptions {
                radix_format: RadixFormat::UpperHex,
                compact: false,
                colored: false,
            }),
    {
        StringFormatOptions { radix_format: RadixFormat::UpperHex, compact: false, colored: false }
    }
}

impl StringFormatOptions {
    /// Sets the radix format for each byte in the string to be one of the
    /// values of the enum [`RadixFormat`].
    pub fn with_byte_radix_format(self, radix_format: RadixFormat) -> (r: Self)
        ensures
            r == (StringFormatOptions { radix_format, ..self }),
    {
        StringFormatOptions { radix_format, ..self }
    }

    /// Sets the radix format for each byte in the string to [`RadixFormat::Binary`].
    pub fn with_binary_bytes(self) -> (r: Self)
        ensures
            r == (StringFormatOptions { radix_format: RadixFormat::Binary, ..self }),
    {
        self.with_byte_radix_format(RadixFormat::Binary)
    }

    /// Sets the radix format for each byte in the string to [`RadixFormat::Decimal`].
    pub fn with_decimal_bytes(self) -> (r: Self)
        ensures
            r == (StringFormatOptions { radix_format: RadixFormat::Decimal, ..self }),
    {
        self.with_byte_radix_format(RadixFormat::Decimal)
    }

    /// Sets the radix format for each byte in the string to [`RadixFormat::LowerHex`].
    pub fn with_lower_hex_bytes(self) -> (r: Self)
        ensures
            r == (StringFormatOptions { radix_format: RadixFormat::LowerHex, ..self }),
    {
        self.with_byte_radix_format(RadixFormat::LowerHex)
    }

    /// Sets the radix format for each byte in the string to [`RadixFormat::Octal`].
    pub fn with_octal_bytes(self) -> (r: Self)
        ensures
            r == (StringFormatOptions { radix_format: RadixFormat::Octal, ..self }),
    {
        self.with_byte_radix_format(RadixFormat::Octal)
    }

    /// Sets the radix format for each byte in the string to [`RadixFormat::UpperHex`].
    pub fn with_upper_hex_bytes(self) -> (r: Self)
        ensures
            r == (StringFormatOptions { radix_format: RadixFormat::UpperHex, ..self }),
    {
        self.with_byte_radix_format(RadixFormat::UpperHex)
    }

    /// Use a compact representation: drop the separating underscores while
    /// keeping every field at the radix's fixed width.
    pub fn compact(self, compact: bool) -> (r: Self)
        ensures
            r == (StringFormatOptions { compact, ..self }),
    {
        StringFormatOptions { compact, ..self }
    }

    /// Use color to denote each byte's kind according to the ASCII
    /// conventions of [`ByteKind`].
    pub fn use_color(self, colored: bool) -> (r: Self)
        ensures
            r == (StringFormatOptions { colored, ..self }),
    {
        StringFormatOptions { colored, ..self }
    }
}

// ------------------------------------------------------------------------
// Formatting
// ------------------------------------------------------------------------

/// The separator between two string fields: a decorated underscore, or
/// nothing in compact form.
pub open spec fn spec_string_sep(compact: bool, colored: bool) -> Seq<char> {
    if compact {
        Seq::<char>::empty()
    } else {
        spec_deco(ReprComponentKind::Separator, colored, seq!['_'])
    }
}

/// The decorated byte fields of the string body: always the padded,
/// fixed-width form, whatever the width mode.
pub open spec fn spec_string_fields(bytes: Seq<u8>, r: RadixFormat, colored: bool) -> Seq<
    Seq<char>,
> {
    Seq::new(
        bytes.len(),
        |i: int|
            spec_deco(
                ReprComponentKind::Value(spec_byte_kind(bytes[i])),
                colored,
                spec_byte_field(r, bytes[i], false),
            ),
    )
}

/// The full string representation of `bytes`.
pub open spec fn spec_string_repr(
    bytes: Seq<u8>,
    r: RadixFormat,
    compact: bool,
    colored: bool,
) -> Seq<char> {
    spec_deco(ReprComponentKind::Prefix, colored, r.spec_prefix_chars()) + spec_deco(
        ReprComponentKind::Delimiter,
        colored,
        seq!['"'],
    ) + spec_join(spec_string_fields(bytes, r, colored), spec_string_sep(compact, colored))
        + spec_deco(ReprComponentKind::Delimiter, colored, seq!['"'])
}

/// Render `value` in the string representation under the given options.
#[verifier::rlimit(60)]
pub fn string_representation(value: &Binary<'_>, options: &StringFormatOptions) -> (r: String)
    ensures
        r@ == spec_string_repr(value@, options.radix_format, options.compact, options.colored),
{
    let radix = options.radix_format;
    let compact = options.compact;
    let colored = options.colored;
    let bytes = value.as_slice();
    let n = bytes.len();
    let ghost fields = spec_string_fields(bytes@, radix, colored);
    let ghost sep = spec_string_sep(compact, colored);
    let ghost head = spec_deco(ReprComponentKind::Prefix, colored, radix.spec_prefix_chars())
        + spec_deco(ReprComponentKind::Delimiter, colored, seq!['"']);

    let mut out = String::new();
    push_deco(&mut out, ReprComponentKind::Prefix, colored, radix.prefix_str());
    proof {
        reveal_strlit("\"");
        assert("\""@ =~= seq!['"']);
    }
    push_deco(&mut out, ReprComponentKind::Delimiter, colored, "\"");
    let mut i: usize = 0;
    proof {
        assert(fields.take(0) =~= Seq::<Seq<char>>::empty());
        assert(out@ =~= head + spec_join(fields.take(0), sep));
    }
    while i < n
        invariant
            0 <= i <= n,
            n == bytes@.len(),
            fields == spec_string_fields(bytes@, radix, colored),
            sep == spec_string_sep(compact, colored),
            out@ == head + spec_join(fields.take(i as int), sep),
        decreases n - i,
    {
        let ghost before = out@;
        proof {
            reveal_strlit("_");
            assert("_"@ =~= seq!['_']);
        }
        if i > 0 && !compact {
            push_deco(&mut out, ReprComponentKind::Separator, colored, "_");
        }
        proof {
            if i > 0 {
                assert(out@ =~= before + sep);
            }
        }
        let b = *vstd::slice::slice_index_get(bytes, i);
        let field = byte_field(radix, b, false);
        push_deco_chars(
            &mut out,
            ReprComponentKind::Value(ByteKind::byte_style(b)),
            colored,
            &field,
        );
        proof {
            lemma_join_push(fields.take(i as int), sep, fields[i as int]);
            assert(fields.take(i as int).push(fields[i as int]) =~= fields.take(i as int + 1));
            assert(out@ =~= head + spec_join(fields.take(i as int + 1), sep));
        }
        i = i + 1;
    }
    proof {
        assert(fields.take(n as int) =~= fields);
        reveal_strlit("\"");
    }
    push_deco(&mut out, ReprComponentKind::Delimiter, colored, "\"");
    proof {
        assert(out@ =~= spec_string_repr(
            value@,
            options.radix_format,
            options.compact,
            options.colored,
        ));
    }
    out
}

// ------------------------------------------------------------------------
// Parsing
// ------------------------------------------------------------------------

/// Whether `c` occurs in `s`.
pub open spec fn spec_contains(s: Seq<char>, c: char) -> bool {
    exists|i: int| 0 <= i < s.len() && s[i] == c
}

/// Parse a body of fixed-width fields: consume exactly `w` characters per
/// byte; a remainder shorter than a field is a malformed body.
pub open spec fn spec_parse_fixed(base: nat, w: nat, s: Seq<char>) -> Result<Seq<u8>, Error>
    decreases s.len(),
{
    if s.len() == 0 {
        Ok(Seq::<u8>::empty())
    } else if w < 1 || s.len() < w {
        Err(Error::InvalidRepresentation)
    } else {
        match spec_parse_field(base, s.take(w as int)) {
            Err(e) => Err(Error::InvalidByteRepresentation { source: e }),
            Ok(b) => match spec_parse_fixed(base, w, s.skip(w as int)) {
                Err(e) => Err(e),
                Ok(bs) => Ok(seq![b] + bs),
            },
        }
    }
}

/// What parsing a string representation yields: the grammar is
/// `'0' radix-char '"' (byte ('_' byte)*)? '"'`. A body holding an
/// underscore is split on underscores, with each field read as digits of
/// any width; a body without underscores is re-sliced into fields of the
/// radix's fixed width.
pub open spec fn spec_parse_string(s: Seq<char>) -> Result<Seq<u8>, Error> {
    if s.len() == 0 || s[0] != '0' {
        Err(Error::MissingRadixPrefix)
    } else if s.len() < 2 || RadixFormat::spec_from(Some(s[1])) is Err {
        Err(Error::InvalidRadixPrefix)
    } else {
        let r = RadixFormat::spec_from(Some(s[1]))->Ok_0;
        let rest = s.subrange(2, s.len() as int);
        if !(rest.len() >= 2 && rest[0] == '"' && rest.last() == '"') {
            Err(Error::InvalidStringQuotes)
        } else {
            let body = rest.subrange(1, rest.len() - 1);
            if body.len() == 0 {
                Ok(Seq::<u8>::empty())
            } else if spec_contains(body, '_') {
                match spec_parse_fields(r.spec_radix(), spec_split(body, '_'), false) {
                    Ok(bs) => Ok(bs),
                    Err(e) => Err(Error::InvalidByteRepresentation { source: e }),
                }
            } else {
                spec_parse_fixed(r.spec_radix(), r.spec_max_width(), body)
            }
        }
    }
}

/// Parse a string representation back into the bytes it renders.
pub fn parse_string_representation<'a>(s: &'a str) -> (r: Result<Binary<'a>, Error>)
    ensures
        spec_parsed(r) == spec_parse_string(s@),
{
    let chars = str_chars(s);
    let n = chars.len();
    if n == 0 || chars[0] != '0' {
        return Err(Error::MissingRadixPrefix);
    }
    if n < 2 {
        return Err(Error::InvalidRadixPrefix);
    }
    let radix = match RadixFormat::from(Some(chars[1])) {
        Ok(r) => r,
        Err(_) => {
            return Err(Error::InvalidRadixPrefix);
        },
    };
    let ghost rest = s@.subrange(2, n as int);
    proof {
        assert(rest.len() >= 1 ==> rest[0] == s@[2]);
        assert(rest.len() >= 1 ==> rest.last() == s@[n as int - 1]);
    }
    if !(n >= 4 && chars[2] == '"' && chars[n - 1] == '"') {
        return Err(Error::InvalidStringQuotes);
    }
    let ghost body = rest.subrange(1, rest.len() - 1);
    proof {
        assert(body =~= s@.subrange(3, n as int - 1));
    }
    if n == 4 {
        // nothing between the quotes
        return Ok(Binary::Owned(Vec::new()));
    }
    let body_slice = vstd::slice::slice_subrange(chars.as_slice(), 3, n - 1);
    let base = radix.radix();

    // does the body hold an underscore?
    let blen = body_slice.len();
    let mut has_sep = false;
    let mut k: usize = 0;
    while k < blen
        invariant
            0 <= k <= blen,
            blen == body.len(),
            body_slice@ == body,
            has_sep == exists|j: int| 0 <= j < k && body[j] == '_',
        decreases blen - k,
    {
        if *vstd::slice::slice_index_get(body_slice, k) == '_' {
            has_sep = true;
        }
        k = k + 1;
    }
    proof {
        assert(has_sep == spec_contains(body, '_'));
        assert(s@[0] == '0');
        assert(RadixFormat::spec_from(Some(s@[1])) == Ok::<RadixFormat, Error>(radix));
        assert(rest.len() >= 2 && rest[0] == '"' && rest.last() == '"');
        assert(body.len() > 0);
    }

    if has_sep {
        let fields = split_chars(body_slice, '_');
        let ghost fseq = spec_split(body, '_');
        let m = fields.len();
        let mut out: Vec<u8> = Vec::new();
        let mut i: usize = 0;
        proof {
            assert(fseq.subrange(0, m as int) =~= fseq);
            assert(spec_parse_string(s@) == (match spec_parse_fields(
                radix.spec_radix(),
                fseq,
                false,
            ) {
                Ok(bs) => Ok::<Seq<u8>, Error>(bs),
                Err(e) => Err(Error::InvalidByteRepresentation { source: e }),
            }));
        }
        while i < m
            invariant
                0 <= i <= m,
                m == fields@.len() == fseq.len(),
                2 <= base <= 16,
                base == radix.spec_radix(),
                forall|j: int| 0 <= j < m ==> fields@[j]@ == fseq[j],
                spec_parse_string(s@) == (match spec_parse_fields(base as nat, fseq, false) {
                    Ok(bs) => Ok::<Seq<u8>, Error>(bs),
                    Err(e) => Err(Error::InvalidByteRepresentation { source: e }),
                }),
                spec_parse_fields(base as nat, fseq, false) == (match spec_parse_fields(
                    base as nat,
                    fseq.subrange(i as int, m as int),
                    false,
                ) {
                    Ok(tail) => Ok::<Seq<u8>, crate::error::ByteParseError>(out@ + tail),
                    Err(e) => Err(e),
                }),
            decreases m - i,
        {
            proof {
                assert(fseq.subrange(i as int, m as int)[0] == fseq[i as int]);
                assert(fseq.subrange(i as int, m as int).drop_first() =~= fseq.subrange(
                    i as int + 1,
                    m as int,
                ));
            }
            match parse_field(base, fields[i].as_slice()) {
                Ok(b) => {
                    let ghost old_out = out@;
                    out.push(b);
                    proof {
                        assert(forall|tail: Seq<u8>|
                            old_out + (seq![b] + tail) =~= out@ + tail);
                    }
                },
                Err(e) => {
                    return Err(Error::InvalidByteRepresentation { source: e });
                },
            }
            i = i + 1;
        }
        proof {
            assert(fseq.subrange(m as int, m as int) =~= Seq::<Seq<char>>::empty());
            assert(out@ + Seq::<u8>::empty() =~= out@);
        }
        Ok(Binary::Owned(out))
    } else {
        let width = radix.max_width();
        let mut out: Vec<u8> = Vec::new();
        let mut i: usize = 0;
        proof {
            assert(body.skip(0) =~= body);
            assert(spec_parse_string(s@) == spec_parse_fixed(
                radix.spec_radix(),
                radix.spec_max_width(),
                body,
            ));
        }
        while i < blen
            invariant
                0 <= i <= blen,
                blen == body.len(),
                body_slice@ == body,
                2 <= base <= 16,
                base == radix.spec_radix(),
                1 <= width,
                width == radix.spec_max_width(),
                spec_parse_string(s@) == (match spec_parse_fixed(
                    base as nat,
                    width as nat,
                    body.skip(i as int),
                ) {
                    Ok(tail) => Ok::<Seq<u8>, Error>(out@ + tail),
                    Err(e) => Err(e),
                }),
            decreases blen - i,
        {
            let ghost remaining = body.skip(i as int);
            if blen - i < width {
                return Err(Error::InvalidRepresentation);
            }
            let piece = vstd::slice::slice_subrange(body_slice, i, i + width);
            proof {
                assert(piece@ =~= remaining.take(width as int));
                assert(remaining.skip(width as int) =~= body.skip(i as int + width));
            }
            match parse_field(base, piece) {
                Ok(b) => {
                    let ghost old_out = out@;
                    out.push(b);
                    proof {
                        assert(forall|tail: Seq<u8>|
                            old_out + (seq![b] + tail) =~= out@ + tail);
                    }
                },
                Err(e) => {
                    return Err(Error::InvalidByteRepresentation { source: e });
                },
            }
            i = i + width;
        }
        proof {
            assert(body.skip(blen as int) =~= Seq::<char>::empty());
            assert(out@ + Seq::<u8>::empty() =~= out@);
        }
        Ok(Binary::Owned(out))
    }
}

// ------------------------------------------------------------------------
// Laws
// ------------------------------------------------------------------------

/// The concatenation of fixed-width fields re-slices into exactly those
/// fields.
proof fn lemma_parse_fixed_round_trip(bytes: Seq<u8>, r: RadixFormat)
    ensures
        spec_parse_fixed(
            r.spec_radix(),
            r.spec_max_width(),
            spec_join(spec_string_fields(bytes, r, false), Seq::<char>::empty()),
        ) == Ok::<Seq<u8>, Error>(bytes),
    decreases bytes.len(),
{
    let base = r.spec_radix();
    let w = r.spec_max_width();
    let fields = spec_string_fields(bytes, r, false);
    let body = spec_join(fields, Seq::<char>::empty());
    if bytes.len() == 0 {
        assert(body =~= Seq::<char>::empty());
        assert(bytes =~= Seq::<u8>::empty());
    } else {
        lemma_byte_field_shape(r, bytes[0], false);
        let f0 = spec_byte_field(r, bytes[0], false);
        let rest_fields = spec_string_fields(bytes.drop_first(), r, false);
        let rest_body = spec_join(rest_fields, Seq::<char>::empty());
        assert(body =~= f0 + rest_body) by {
            if fields.len() == 1 {
                assert(rest_fields =~= Seq::<Seq<char>>::empty());
                assert(body == fields[0]);
                assert(f0 + rest_body =~= f0);
            } else {
                assert(fields.drop_first() =~= rest_fields);
                assert(body == fields[0] + Seq::<char>::empty() + spec_join(
                    fields.drop_first(),
                    Seq::<char>::empty(),
                ));
                assert(fields[0] + Seq::<char>::empty() =~= f0);
            }
        }
        lemma_parse_fixed_round_trip(bytes.drop_first(), r);
        assert(body.take(w as int) =~= f0);
        assert(body.skip(w as int) =~= rest_body);
        crate::repr::text::lemma_byte_field_round_trip(r, bytes[0], false);
        assert(seq![bytes[0]] + bytes.drop_first() =~= bytes);
    }
}

/// Round trip: parsing the unstyled string representation of any buffer,
/// in any radix and either separator mode, yields the buffer back.
pub proof fn lemma_string_round_trip(bytes: Seq<u8>, r: RadixFormat, compact: bool)
    ensures
        spec_parse_string(spec_string_repr(bytes, r, compact, false)) == Ok::<Seq<u8>, Error>(
            bytes,
        ),
{
    let s = spec_string_repr(bytes, r, compact, false);
    let fields = spec_string_fields(bytes, r, false);
    let sep = spec_string_sep(compact, false);
    let body = spec_join(fields, sep);
    let prefix = r.spec_prefix_chars();
    assert(s =~= prefix + seq!['"'] + body + seq!['"']);
    assert(s[0] == '0');
    assert(s[1] == r.spec_prefix_char());
    assert(RadixFormat::spec_from(Some(r.spec_prefix_char())) == Ok::<RadixFormat, Error>(r));
    let rest = s.subrange(2, s.len() as int);
    assert(rest =~= seq!['"'] + body + seq!['"']);
    assert(rest[0] == '"' && rest.last() == '"' && rest.len() >= 2);
    let inner = rest.subrange(1, rest.len() - 1);
    assert(inner =~= body);
    assert(forall|i: int| 0 <= i < fields.len() ==> fields[i] == spec_byte_field(
        r,
        bytes[i],
        false,
    ));
    assert forall|i: int, j: int|
        0 <= i < fields.len() && 0 <= j < fields[i].len() implies spec_char_val(
        #[trigger] fields[i][j],
    ) < 16 by {
        lemma_byte_field_shape(r, bytes[i], false);
    }
    assert forall|i: int, j: int|
        0 <= i < fields.len() && 0 <= j < fields[i].len() implies #[trigger] fields[i][j]
        != '_' by {
        lemma_digit_char_plain(fields[i][j]);
    }
    if bytes.len() == 0 {
        assert(body.len() == 0);
        assert(bytes =~= Seq::<u8>::empty());
    } else if compact {
        assert(sep =~= Seq::<char>::empty());
        assert(!spec_contains(body, '_')) by {
            lemma_join_no_sep_char(fields, body, '_');
        }
        assert(body.len() > 0) by {
            lemma_byte_field_shape(r, bytes[0], false);
            if fields.len() > 1 {
                assert(spec_join(fields, sep) == fields[0] + sep + spec_join(
                    fields.drop_first(),
                    sep,
                ));
            } else {
                assert(spec_join(fields, sep) == fields[0]);
            }
        }
        lemma_parse_fixed_round_trip(bytes, r);
    } else {
        assert(sep =~= seq!['_']);
        assert(body.len() > 0) by {
            lemma_byte_field_shape(r, bytes[0], false);
            if fields.len() > 1 {
                assert(spec_join(fields, sep) == fields[0] + sep + spec_join(
                    fields.drop_first(),
                    sep,
                ));
            } else {
                assert(spec_join(fields, sep) == fields[0]);
            }
        }
        if bytes.len() == 1 {
            // a single field holds no underscore: the fixed-width path reads it
            assert(body =~= fields[0]);
            assert(!spec_contains(body, '_'));
            lemma_parse_fixed_round_trip(bytes, r);
            assert(spec_join(fields, Seq::<char>::empty()) =~= body);
        } else {
            assert(spec_join(fields, sep) == fields[0] + sep + spec_join(
                fields.drop_first(),
                sep,
            ));
            lemma_byte_field_shape(r, bytes[0], false);
            assert(body[fields[0].len() as int] == '_');
            assert(spec_contains(body, '_'));
            lemma_split_of_join(Seq::<char>::empty(), fields, '_', Seq::<char>::empty());
            assert(Seq::<char>::empty() + body =~= body);
            let split = spec_split(body, '_');
            assert forall|i: int| 0 <= i < split.len() implies #[trigger] split[i]
                == spec_byte_field(r, bytes[i], false) by {
                if i == 0 {
                    assert(split[i] =~= fields[0]);
                } else {
                    assert(split[i] =~= Seq::<char>::empty() + fields[i]);
                    assert(Seq::<char>::empty() + fields[i] =~= fields[i]);
                }
            }
            lemma_parse_fields_round_trip(split, bytes, r, false, false);
        }
    }
}


/// A join of separator-free fields with an empty separator holds no
/// separator character.
proof fn lemma_join_no_sep_char(fields: Seq<Seq<char>>, body: Seq<char>, c: char)
    requires
        body == spec_join(fields, Seq::<char>::empty()),
        forall|i: int, j: int|
            0 <= i < fields.len() && 0 <= j < fields[i].len() ==> #[trigger] fields[i][j] != c,
    ensures
        !spec_contains(body, c),
    decreases fields.len(),
{
    if fields.len() == 0 {
    } else if fields.len() == 1 {
        assert(body == fields[0]);
    } else {
        let rest = spec_join(fields.drop_first(), Seq::<char>::empty());
        assert(body == fields[0] + Seq::<char>::empty() + rest);
        lemma_join_no_sep_char(fields.drop_first(), rest, c);
        assert forall|k: int| 0 <= k < body.len() implies body[k] != c by {
            if k < fields[0].len() {
                assert(body[k] == fields[0][k]);
            } else {
                assert(body[k] == rest[k - fields[0].len()]);
                assert(spec_contains(rest, c) || rest[k - fields[0].len()] != c);
            }
        }
    }
}

/// An empty buffer renders as the radix prefix followed by `""`, in either
/// separator mode, and that text parses back to the empty buffer.
pub proof fn lemma_string_empty(r: RadixFormat, compact: bool)
    ensures
        spec_string_repr(Seq::<u8>::empty(), r, compact, false) == r.spec_prefix_chars() + seq![
            '"',
            '"',
        ],
        spec_parse_string(r.spec_prefix_chars() + seq!['"', '"']) == Ok::<Seq<u8>, Error>(
            Seq::<u8>::empty(),
        ),
{
    assert(spec_string_fields(Seq::<u8>::empty(), r, false) =~= Seq::<Seq<char>>::empty());
    assert(spec_string_repr(Seq::<u8>::empty(), r, compact, false) =~= r.spec_prefix_chars()
        + seq!['"', '"']);
    lemma_string_round_trip(Seq::<u8>::empty(), r, compact);
}

/// Fixed-width failure: a body without separators whose length is not an
/// exact multiple of the radix's field width never parses; when every
/// whole field it holds is well-formed, the failure is specifically the
/// malformed-body error, not a byte-level one.
pub proof fn lemma_fixed_width_failure(base: nat, w: nat, s: Seq<char>)
    requires
        1 <= w,
        s.len() as int % (w as int) != 0,
        forall|k: int|
            0 <= k && (k + 1) * (w as int) <= s.len() ==> spec_parse_field(
                base,
                #[trigger] s.subrange(k * (w as int), (k + 1) * (w as int)),
            ) is Ok,
    ensures
        spec_parse_fixed(base, w, s) == Err::<Seq<u8>, Error>(Error::InvalidRepresentation),
    decreases s.len(),
{
    let wi = w as int;
    if s.len() == 0 {
        assert(s.len() as int % wi == 0) by {
            vstd::arithmetic::div_mod::lemma_small_mod(0, w);
        }
    } else if s.len() < w {
    } else {
        let k0: int = 0;
        assert(k0 * wi == 0 && (k0 + 1) * wi == wi) by (nonlinear_arith)
            requires
                k0 == 0,
        ;
        assert((k0 + 1) * wi <= s.len());
        assert(spec_parse_field(base, s.subrange(k0 * wi, (k0 + 1) * wi)) is Ok);
        assert(s.take(wi) =~= s.subrange(k0 * wi, (k0 + 1) * wi));
        let t = s.skip(wi);
        assert(t.len() as int % wi != 0) by {
            assert(t.len() == s.len() - w);
            vstd::arithmetic::div_mod::lemma_mod_sub_multiples_vanish(s.len() as int, wi);
        }
        assert forall|k: int| 0 <= k && (k + 1) * wi <= t.len() implies spec_parse_field(
            base,
            #[trigger] t.subrange(k * wi, (k + 1) * wi),
        ) is Ok by {
            let k1: int = k + 1;
            assert(k * wi + wi == k1 * wi && k1 * wi + wi == (k1 + 1) * wi) by (nonlinear_arith)
                requires
                    k1 == k + 1,
            ;
            assert(0 <= k * wi) by (nonlinear_arith)
                requires
                    0 <= k,
                    0 < wi,
            ;
            assert((k1 + 1) * wi <= s.len());
            assert(spec_parse_field(base, s.subrange(k1 * wi, (k1 + 1) * wi)) is Ok);
            assert(t.subrange(k * wi, (k + 1) * wi) =~= s.subrange(k1 * wi, (k1 + 1) * wi));
        }
        lemma_fixed_width_failure(base, w, t);
    }
}

/// Styling neutrality: the styled representation wraps exactly the
/// component texts of the unstyled one in decorations — the prefix, the
/// quotes, the separators and each byte field are shared between the two
/// forms — so the byte content carried by the text does not depend on the
/// styling toggle, and parsing the unstyled form recovers the buffer for
/// every option combination.
pub proof fn lemma_string_styling_neutral(
    bytes: Seq<u8>,
    r: RadixFormat,
    compact: bool,
    colored: bool,
)
    ensures
        spec_string_repr(bytes, r, compact, colored) == spec_deco(
            ReprComponentKind::Prefix,
            colored,
            r.spec_prefix_chars(),
        ) + spec_deco(ReprComponentKind::Delimiter, colored, seq!['"']) + spec_join(
            spec_string_fields(bytes, r, colored),
            spec_string_sep(compact, colored),
        ) + spec_deco(ReprComponentKind::Delimiter, colored, seq!['"']),
        spec_parse_string(spec_string_repr(bytes, r, compact, false)) == Ok::<Seq<u8>, Error>(
            bytes,
        ),
{
    lemma_string_round_trip(bytes, r, compact);
}

} // verus!
