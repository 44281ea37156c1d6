//! An array-like representation of binary data: byte fields separated by
//! commas and enclosed in square brackets, after an identifying radix
//! prefix. The compact form drops the space after each comma and the
//! leading zeros of each field; parsing accepts both forms uniformly.

use vstd::prelude::*;
use crate::Binary;
use crate::error::Error;
use crate::repr::{
    push_deco, push_deco_chars, spec_byte_kind, spec_deco, spec_parsed, ByteKind, RadixFormat,
    ReprComponentKind,
};
use crate::repr::text::{
    byte_field, lemma_byte_field_shape, lemma_digit_char_plain, lemma_join_push,
    lemma_parse_fields_round_trip, lemma_split_of_join, lemma_trim_plain, parse_field, spec_trim,
    spec_byte_field, spec_join, spec_parse_fields, spec_split, split_chars, str_chars,
    trim_chars,
};

verus! {

/// Options controlling the array representation.
#[derive(Clone, Copy, Debug, PartialEq, Eq, Structural)]
pub struct ArrayFormatOptions {
    /// The radix each byte is rendered in.
    pub radix_format: RadixFormat,
    /// Whether to use the compact (minimal-width, tight) form.
    pub compact: bool,
    /// Whether to decorate components with styles.
    pub colored: bool,
}

impl Default for ArrayFormatOptions {
    /// Upper-hex, padded, unstyled.
    fn default() -> (r: Self)
        ensures
            r == (ArrayFormatOptions {
                radix_format: RadixFormat::UpperHex,
                compact: false,
                colored: false,
            }),
    {
        ArrayFormatOptions { radix_format: RadixFormat::UpperHex, compact: false, colored: false }
    }
}

impl ArrayFormatOptions {
    /// Sets the radix format for each byte in the array to be one of the
    /// values of the enum [`RadixFormat`].
    pub fn with_byte_radix_format(self, radix_format: RadixFormat) -> (r: Self)
        ensures
            r == (ArrayFormatOptions { radix_format, ..self }),
    {
        ArrayFormatOptions { radix_format, ..self }
    }

    /// Sets the radix format for each byte in the array to [`RadixFormat::Binary`].
    pub fn with_binary_bytes(self) -> (r: Self)
        ensures
            r == (ArrayFormatOptions { radix_format: RadixFormat::Binary, ..self }),
    {
        self.with_byte_radix_format(RadixFormat::Binary)
    }

    /// Sets the radix format for each byte in the array to [`RadixFormat::Decimal`].
    pub fn with_decimal_bytes(self) -> (r: Self)
        ensures
            r == (ArrayFormatOptions { radix_format: RadixFormat::Decimal, ..self }),
    {
        self.with_byte_radix_format(RadixFormat::Decimal)
    }

    /// Sets the radix format for each byte in the array to [`RadixFormat::LowerHex`].
    pub fn with_lower_hex_bytes(self) -> (r: Self)
        ensures
            r == (ArrayFormatOptions { radix_format: RadixFormat::LowerHex, ..self }),
    {
        self.with_byte_radix_format(RadixFormat::LowerHex)
    }

    /// Sets the radix format for each byte in the array to [`RadixFormat::Octal`].
    pub fn with_octal_bytes(self) -> (r: Self)
        ensures
            r == (ArrayFormatOptions { radix_format: RadixFormat::Octal, ..self }),
    {
        self.with_byte_radix_format(RadixFormat::Octal)
    }

    /// Sets the radix format for each byte in the array to [`RadixFormat::UpperHex`].
    pub fn with_upper_hex_bytes(self) -> (r: Self)
        ensures
            r == (ArrayFormatOptions { radix_format: RadixFormat::UpperHex, ..self }),
    {
        self.with_byte_radix_format(RadixFormat::UpperHex)
    }

    /// Use a compact representation: no space after the separating commas
    /// and no leading zeros on the byte fields.
    pub fn compact(self, compact: bool) -> (r: Self)
        ensures
            r == (ArrayFormatOptions { compact, ..self }),
    {
        ArrayFormatOptions { compact, ..self }
    }

    /// Use color to denote each byte's kind according to the ASCII
    /// conventions of [`ByteKind`].
    pub fn use_color(self, colored: bool) -> (r: Self)
        ensures
            r == (ArrayFormatOptions { colored, ..self }),
    {
        ArrayFormatOptions { colored, ..self }
    }
}

// ------------------------------------------------------------------------
// Formatting
// ------------------------------------------------------------------------

/// The separator between two array fields: a comma, and a space after it
/// unless compact.
pub open spec fn spec_array_sep(compact: bool, colored: bool) -> Seq<char> {
    spec_deco(ReprComponentKind::Separator, colored, seq![',']) + (if compact {
        Seq::<char>::empty()
    } else {
        seq![' ']
    })
}

/// The decorated byte fields of the array body.
pub open spec fn spec_array_fields(
    bytes: Seq<u8>,
    r: RadixFormat,
    compact: bool,
    colored: bool,
) -> Seq<Seq<char>> {
    Seq::new(
        bytes.len(),
        |i: int|
            spec_deco(
                ReprComponentKind::Value(spec_byte_kind(bytes[i])),
                colored,
                spec_byte_field(r, bytes[i], compact),
            ),
    )
}

/// The full array representation of `bytes`.
pub open spec fn spec_array_repr(
    bytes: Seq<u8>,
    r: RadixFormat,
    compact: bool,
    colored: bool,
) -> Seq<char> {
    spec_deco(ReprComponentKind::Prefix, colored, r.spec_prefix_chars()) + spec_deco(
        ReprComponentKind::Delimiter,
        colored,
        seq!['['],
    ) + spec_join(
        spec_array_fields(bytes, r, compact, colored),
        spec_array_sep(compact, colored),
    ) + spec_deco(ReprComponentKind::Delimiter, colored, seq![']'])
}

/// Render `value` in the array representation under the given options.
#[verifier::rlimit(60)]
pub fn array_representation(value: &Binary<'_>, options: &ArrayFormatOptions) -> (r: String)
    ensures
        r@ == spec_array_repr(value@, options.radix_format, options.compact, options.colored),
{
    let radix = options.radix_format;
    let compact = options.compact;
    let colored = options.colored;
    let bytes = value.as_slice();
    let n = bytes.len();
    let ghost fields = spec_array_fields(bytes@, radix, compact, colored);
    let ghost sep = spec_array_sep(compact, colored);
    let ghost head = spec_deco(ReprComponentKind::Prefix, colored, radix.spec_prefix_chars())
        + spec_deco(ReprComponentKind::Delimiter, colored, seq!['[']);

    let mut out = String::new();
    push_deco(&mut out, ReprComponentKind::Prefix, colored, radix.prefix_str());
    proof {
        reveal_strlit("[");
        reveal_strlit("]");
        reveal_strlit(",");
        reveal_strlit(" ");
        assert("["@ =~= seq!['[']);
        assert("]"@ =~= seq![']']);
        assert(","@ =~= seq![',']);
        assert(" "@ =~= seq![' ']);
    }
    push_deco(&mut out, ReprComponentKind::Delimiter, colored, "[");
    let mut i: usize = 0;
    proof {
        assert(fields.take(0) =~= Seq::<Seq<char>>::empty());
        assert(out@ =~= head + spec_join(fields.take(0), sep));
    }
    while i < n
        invariant
            0 <= i <= n,
            n == bytes@.len(),
            fields == spec_array_fields(bytes@, radix, compact, colored),
            sep == spec_array_sep(compact, colored),
            out@ == head + spec_join(fields.take(i as int), sep),
        decreases n - i,
    {
        let ghost before = out@;
        proof {
            reveal_strlit(",");
            reveal_strlit(" ");
            assert(","@ =~= seq![',']);
            assert(" "@ =~= seq![' ']);
        }
        if i > 0 {
            push_deco(&mut out, ReprComponentKind::Separator, colored, ",");
            if !compact {
                crate::repr::push_str(&mut out, " ");
            }
            proof {
                assert(out@ =~= before + sep);
            }
        }
        let b = *vstd::slice::slice_index_get(bytes, i);
        let field = byte_field(radix, b, compact);
        push_deco_chars(
            &mut out,
            ReprComponentKind::Value(ByteKind::byte_style(b)),
            colored,
            &field,
        );
        proof {
            lemma_join_push(fields.take(i as int), sep, fields[i as int]);
            assert(fields.take(i as int).push(fields[i as int]) =~= fields.take(i as int + 1));
            assert(out@ =~= head + spec_join(fields.take(i as int + 1), sep));
        }
        i = i + 1;
    }
    proof {
        assert(fields.take(n as int) =~= fields);
        reveal_strlit("]");
    }
    push_deco(&mut out, ReprComponentKind::Delimiter, colored, "]");
    proof {
        assert(out@ =~= spec_array_repr(
            value@,
            options.radix_format,
            options.compact,
            options.colored,
        ));
    }
    out
}

// ------------------------------------------------------------------------
// Parsing
// ------------------------------------------------------------------------

/// What parsing an array representation yields: the grammar is
/// `'0' radix-char '[' (byte (',' byte)*)? ']'`, with each byte field
/// trimmed of surrounding whitespace before it is read as digits of the
/// radix. Each clause that fails selects its own error, in this order.
pub open spec fn spec_parse_array(s: Seq<char>) -> Result<Seq<u8>, Error> {
    if s.len() == 0 || s[0] != '0' {
        Err(Error::MissingRadixPrefix)
    } else if s.len() < 2 || RadixFormat::spec_from(Some(s[1])) is Err {
        Err(Error::InvalidRadixPrefix)
    } else {
        let r = RadixFormat::spec_from(Some(s[1]))->Ok_0;
        let rest = s.subrange(2, s.len() as int);
        if !(rest.len() >= 1 && rest[0] == '[' && rest.last() == ']') {
            Err(Error::InvalidArrayBrackets)
        } else {
            let body = rest.subrange(1, rest.len() - 1);
            if body.len() == 0 {
                Ok(Seq::<u8>::empty())
            } else {
                match spec_parse_fields(r.spec_radix(), spec_split(body, ','), true) {
                    Ok(bs) => Ok(bs),
                    Err(e) => Err(Error::InvalidByteRepresentation { source: e }),
                }
            }
        }
    }
}

/// Parse an array representation back into the bytes it renders.
pub fn parse_array_representation<'a>(s: &'a str) -> (r: Result<Binary<'a>, Error>)
    ensures
        spec_parsed(r) == spec_parse_array(s@),
{
    let chars = str_chars(s);
    let n = chars.len();
    if n == 0 || chars[0] != '0' {
        return Err(Error::MissingRadixPrefix);
    }
    if n < 2 {
        return Err(Error::InvalidRadixPrefix);
    }
    let radix = match RadixFormat::from(Some(chars[1])) {
        Ok(r) => r,
        Err(_) => {
            return Err(Error::InvalidRadixPrefix);
        },
    };
    let ghost rest = s@.subrange(2, n as int);
    proof {
        assert(rest.len() >= 1 ==> rest[0] == s@[2]);
        assert(rest.len() >= 1 ==> rest.last() == s@[n as int - 1]);
    }
    if !(n >= 3 && chars[2] == '[' && chars[n - 1] == ']') {
        return Err(Error::InvalidArrayBrackets);
    }
    let ghost body = rest.subrange(1, rest.len() - 1);
    proof {
        assert(body =~= s@.subrange(3, n as int - 1));
    }
    if n == 4 {
        // nothing between the brackets
        return Ok(Binary::Owned(Vec::new()));
    }
    let body_slice = vstd::slice::slice_subrange(chars.as_slice(), 3, n - 1);
    let fields = split_chars(body_slice, ',');
    let base = radix.radix();
    let ghost fseq = spec_split(body, ',');
    let m = fields.len();
    let mut out: Vec<u8> = Vec::new();
    let mut i: usize = 0;
    proof {
        assert(fseq.subrange(0, m as int) =~= fseq);
        assert(s@[0] == '0');
        assert(RadixFormat::spec_from(Some(s@[1])) == Ok::<RadixFormat, Error>(radix));
        assert(rest[0] == '[' && rest.last() == ']');
        assert(body.len() > 0);
        assert(spec_parse_array(s@) == (match spec_parse_fields(radix.spec_radix(), fseq, true) {
            Ok(bs) => Ok::<Seq<u8>, Error>(bs),
            Err(e) => Err(Error::InvalidByteRepresentation { source: e }),
        }));
    }
    while i < m
        invariant
            0 <= i <= m,
            m == fields@.len() == fseq.len(),
            2 <= base <= 16,
            base == radix.spec_radix(),
            forall|j: int| 0 <= j < m ==> fields@[j]@ == fseq[j],
            spec_parse_array(s@) == (match spec_parse_fields(base as nat, fseq, true) {
                Ok(bs) => Ok::<Seq<u8>, Error>(bs),
                Err(e) => Err(Error::InvalidByteRepresentation { source: e }),
            }),
            spec_parse_fields(base as nat, fseq, true) == (match spec_parse_fields(
                base as nat,
                fseq.subrange(i as int, m as int),
                true,
            ) {
                Ok(tail) => Ok::<Seq<u8>, crate::error::ByteParseError>(out@ + tail),
                Err(e) => Err(e),
            }),
        decreases m - i,
    {
        proof {
            assert(fseq.subrange(i as int, m as int)[0] == fseq[i as int]);
            assert(fseq.subrange(i as int, m as int).drop_first() =~= fseq.subrange(
                i as int + 1,
                m as int,
            ));
        }
        let t = trim_chars(fields[i].as_slice());
        match parse_field(base, t.as_slice()) {
            Ok(b) => {
                let ghost old_out = out@;
                out.push(b);
                proof {
                    assert(forall|tail: Seq<u8>|
                        old_out + (seq![b] + tail) =~= out@ + tail);
                }
            },
            Err(e) => {
                return Err(Error::InvalidByteRepresentation { source: e });
            },
        }
        i = i + 1;
    }
    proof {
        assert(fseq.subrange(m as int, m as int) =~= Seq::<Seq<char>>::empty());
        assert(out@ + Seq::<u8>::empty() =~= out@);
    }
    Ok(Binary::Owned(out))
}

// ------------------------------------------------------------------------
// Laws
// ------------------------------------------------------------------------

/// Round trip: parsing the unstyled array representation of any buffer,
/// in any radix and either width mode, yields the buffer back.
pub proof fn lemma_array_round_trip(bytes: Seq<u8>, r: RadixFormat, compact: bool)
    ensures
        spec_parse_array(spec_array_repr(bytes, r, compact, false)) == Ok::<Seq<u8>, Error>(
            bytes,
        ),
{
    let s = spec_array_repr(bytes, r, compact, false);
    let fields = spec_array_fields(bytes, r, compact, false);
    let sep = spec_array_sep(compact, false);
    let body = spec_join(fields, sep);
    let prefix = r.spec_prefix_chars();
    assert(s =~= prefix + seq!['['] + body + seq![']']);
    assert(s[0] == '0');
    assert(s[1] == r.spec_prefix_char());
    assert(RadixFormat::spec_from(Some(r.spec_prefix_char())) == Ok::<RadixFormat, Error>(r));
    let rest = s.subrange(2, s.len() as int);
    assert(rest =~= seq!['['] + body + seq![']']);
    assert(rest[0] == '[' && rest.last() == ']');
    let inner = rest.subrange(1, rest.len() - 1);
    assert(inner =~= body);
    if bytes.len() == 0 {
        assert(body.len() == 0);
        assert(bytes =~= Seq::<u8>::empty());
    } else {
        assert(forall|i: int| 0 <= i < fields.len() ==> fields[i] == spec_byte_field(
            r,
            bytes[i],
            compact,
        ));
        assert forall|i: int, j: int|
            0 <= i < fields.len() && 0 <= j < fields[i].len() implies #[trigger] fields[i][j]
            != ',' by {
            lemma_byte_field_shape(r, bytes[i], compact);
            lemma_digit_char_plain(fields[i][j]);
        }
        let tail: Seq<char> = if compact {
            Seq::<char>::empty()
        } else {
            seq![' ']
        };
        assert(sep =~= seq![','] + tail);
        assert(body.len() > 0) by {
            lemma_byte_field_shape(r, bytes[0], compact);
            if fields.len() > 1 {
                assert(spec_join(fields, sep) == fields[0] + sep + spec_join(
                    fields.drop_first(),
                    sep,
                ));
            } else {
                assert(spec_join(fields, sep) == fields[0]);
            }
        }
        lemma_split_of_join(Seq::<char>::empty(), fields, ',', tail);
        assert(Seq::<char>::empty() + body =~= body);
        let split = spec_split(body, ',');
        assert(split == Seq::new(
            fields.len(),
            |i: int| if i == 0 { Seq::<char>::empty() + fields[0] } else { tail + fields[i] },
        ));
        assert forall|i: int| 0 <= i < split.len() implies spec_trim(#[trigger] split[i])
            == spec_byte_field(r, bytes[i], compact) by {
            lemma_byte_field_shape(r, bytes[i], compact);
            assert forall|j: int| 0 <= j < fields[i].len() implies !crate::repr::text::spec_is_space(
                #[trigger] fields[i][j],
            ) by {
                lemma_digit_char_plain(fields[i][j]);
            }
            if i == 0 {
                assert(split[i] =~= fields[0]);
                lemma_trim_plain(Seq::<char>::empty(), fields[0]);
                assert(Seq::<char>::empty() + fields[0] =~= fields[0]);
            } else {
                assert(split[i] =~= tail + fields[i]);
                assert(forall|j: int| 0 <= j < tail.len() ==> crate::repr::text::spec_is_space(
                    #[trigger] tail[j],
                ));
                lemma_trim_plain(tail, fields[i]);
            }
        }
        lemma_parse_fields_round_trip(split, bytes, r, compact, true);
    }
}


/// An empty buffer renders as the radix prefix followed by `[]`, in either
/// width mode, and that text parses back to the empty buffer.
pub proof fn lemma_array_empty(r: RadixFormat, compact: bool)
    ensures
        spec_array_repr(Seq::<u8>::empty(), r, compact, false) == r.spec_prefix_chars() + seq![
            '[',
            ']',
        ],
        spec_parse_array(r.spec_prefix_chars() + seq!['[', ']']) == Ok::<Seq<u8>, Error>(
            Seq::<u8>::empty(),
        ),
{
    assert(spec_array_fields(Seq::<u8>::empty(), r, compact, false) =~= Seq::<Seq<char>>::empty());
    assert(spec_array_repr(Seq::<u8>::empty(), r, compact, false) =~= r.spec_prefix_chars()
        + seq!['[', ']']);
    lemma_array_round_trip(Seq::<u8>::empty(), r, compact);
}

/// Styling neutrality: the styled representation wraps exactly the
/// component texts of the unstyled one in decorations — the prefix, the
/// brackets, the separators and each byte field are shared between the two
/// forms — so the byte content carried by the text does not depend on the
/// styling toggle, and parsing the unstyled form recovers the buffer for
/// every option combination.
pub proof fn lemma_array_styling_neutral(
    bytes: Seq<u8>,
    r: RadixFormat,
    compact: bool,
    colored: bool,
)
    ensures
        spec_array_repr(bytes, r, compact, colored) == spec_deco(
            ReprComponentKind::Prefix,
            colored,
            r.spec_prefix_chars(),
        ) + spec_deco(ReprComponentKind::Delimiter, colored, seq!['[']) + spec_join(
            spec_array_fields(bytes, r, compact, colored),
            spec_array_sep(compact, colored),
        ) + spec_deco(ReprComponentKind::Delimiter, colored, seq![']']),
        spec_parse_array(spec_array_repr(bytes, r, compact, false)) == Ok::<Seq<u8>, Error>(
            bytes,
        ),
{
    lemma_array_round_trip(bytes, r, compact);
}

} // verus!
