//! Digit-level building blocks shared by the textual representations:
//! rendering a value as digit characters of a radix, parsing a digit
//! field back into a byte, and the round-trip lemmas connecting the two.

use vstd::prelude::*;
use vstd::arithmetic::power::pow;
use vstd::string::StrSliceExecFns;
use crate::error::ByteParseError;
use crate::repr::RadixFormat;

verus! {

// ------------------------------------------------------------------------
// Digit characters
// ------------------------------------------------------------------------

/// The numeric value a character carries when read as a digit
/// (case-insensitive, as `0`..`9` then `a`..`z`/`A`..`Z`), or 255 when the
/// character is no digit at all.
pub open spec fn spec_char_val(c: char) -> nat {
    if '0' as u32 <= c as u32 && c as u32 <= '9' as u32 {
        (c as u32 - '0' as u32) as nat
    } else if 'a' as u32 <= c as u32 && c as u32 <= 'z' as u32 {
        (c as u32 - 'a' as u32 + 10) as nat
    } else if 'A' as u32 <= c as u32 && c as u32 <= 'Z' as u32 {
        (c as u32 - 'A' as u32 + 10) as nat
    } else {
        255
    }
}

/// Whether `c` is a digit of the given base.
pub open spec fn spec_is_digit(base: nat, c: char) -> bool {
    spec_char_val(c) < base
}

/// The numeric value of `c` as a digit, or 255 when it is no digit.
pub fn char_val(c: char) -> (r: u8)
    ensures
        r as nat == spec_char_val(c),
{
    let u = c as u32;
    if 48 <= u && u <= 57 {
        (u - 48) as u8
    } else if 97 <= u && u <= 122 {
        (u - 97 + 10) as u8
    } else if 65 <= u && u <= 90 {
        (u - 65 + 10) as u8
    } else {
        255
    }
}

/// The character rendering digit value `d` in the radix `r` (upper-hex
/// renders letter digits upper case, every other radix lower case).
pub open spec fn spec_digit_char(r: RadixFormat, d: nat) -> char {
    if d == 0 { '0' }
    else if d == 1 { '1' }
    else if d == 2 { '2' }
    else if d == 3 { '3' }
    else if d == 4 { '4' }
    else if d == 5 { '5' }
    else if d == 6 { '6' }
    else if d == 7 { '7' }
    else if d == 8 { '8' }
    else if d == 9 { '9' }
    else if d == 10 { if r is UpperHex { 'A' } else { 'a' } }
    else if d == 11 { if r is UpperHex { 'B' } else { 'b' } }
    else if d == 12 { if r is UpperHex { 'C' } else { 'c' } }
    else if d == 13 { if r is UpperHex { 'D' } else { 'd' } }
    else if d == 14 { if r is UpperHex { 'E' } else { 'e' } }
    else { if r is UpperHex { 'F' } else { 'f' } }
}

/// Render digit value `d` (below 16) in the radix `r`.
pub fn digit_char(r: RadixFormat, d: u8) -> (c: char)
    requires
        d < 16,
    ensures
        c == spec_digit_char(r, d as nat),
{
    let upper = matches!(r, RadixFormat::UpperHex);
    if d == 0 { '0' }
    else if d == 1 { '1' }
    else if d == 2 { '2' }
    else if d == 3 { '3' }
    else if d == 4 { '4' }
    else if d == 5 { '5' }
    else if d == 6 { '6' }
    else if d == 7 { '7' }
    else if d == 8 { '8' }
    else if d == 9 { '9' }
    else if d == 10 { if upper { 'A' } else { 'a' } }
    else if d == 11 { if upper { 'B' } else { 'b' } }
    else if d == 12 { if upper { 'C' } else { 'c' } }
    else if d == 13 { if upper { 'D' } else { 'd' } }
    else if d == 14 { if upper { 'E' } else { 'e' } }
    else { if upper { 'F' } else { 'f' } }
}

/// Reading back the character of a digit yields the digit.
pub proof fn lemma_digit_char_val(r: RadixFormat, d: nat)
    requires
        d < 16,
    ensures
        spec_char_val(spec_digit_char(r, d)) == d,
{
}

/// A digit character is never a separator, delimiter or space character.
pub proof fn lemma_digit_char_plain(c: char)
    requires
        spec_char_val(c) < 16,
    ensures
        c != ',' && c != '_' && c != '"' && c != '[' && c != ']',
        !spec_is_space(c),
{
}

// ------------------------------------------------------------------------
// Whitespace (the characters `str::trim` removes)
// ------------------------------------------------------------------------

/// Whether `c` has the Unicode `White_Space` property.
pub open spec fn spec_is_space(c: char) -> bool {
    let u = c as u32;
    (0x9 <= u && u <= 0xD) || u == 0x20 || u == 0x85 || u == 0xA0 || u == 0x1680
        || (0x2000 <= u && u <= 0x200A) || u == 0x2028 || u == 0x2029 || u == 0x202F
        || u == 0x205F || u == 0x3000
}

/// Whether `c` has the Unicode `White_Space` property.
pub fn is_space(c: char) -> (r: bool)
    ensures
        r == spec_is_space(c),
{
    let u = c as u32;
    (0x9 <= u && u <= 0xD) || u == 0x20 || u == 0x85 || u == 0xA0 || u == 0x1680
        || (0x2000 <= u && u <= 0x200A) || u == 0x2028 || u == 0x2029 || u == 0x202F
        || u == 0x205F || u == 0x3000
}

// ------------------------------------------------------------------------
// Rendering a value as digits
// ------------------------------------------------------------------------

/// The minimal (no leading zero) digit characters of `v` in radix `r`,
/// most significant digit first.
pub open spec fn spec_digits_chars(r: RadixFormat, v: nat) -> Seq<char>
    decreases v,
{
    let base = r.spec_radix();
    if v < base {
        seq![spec_digit_char(r, v)]
    } else {
        spec_digits_chars(r, v / base).push(spec_digit_char(r, v % base))
    }
}

/// `s` left-padded with `'0'` to width `w` (unchanged when already wide enough).
pub open spec fn spec_zero_pad(s: Seq<char>, w: nat) -> Seq<char> {
    if s.len() >= w {
        s
    } else {
        Seq::new((w - s.len()) as nat, |i: int| '0') + s
    }
}

/// Append the digit characters of `v` in radix `r` to `out`.
pub fn push_digits(r: RadixFormat, v: u64, out: &mut Vec<char>)
    ensures
        final(out)@ == old(out)@ + spec_digits_chars(r, v as nat),
    decreases v,
{
    let base = r.radix() as u64;
    if v < base {
        out.push(digit_char(r, v as u8));
    } else {
        proof {
            vstd::arithmetic::div_mod::lemma_div_decreases(v as int, base as int);
            vstd::arithmetic::div_mod::lemma_mod_bound(v as int, base as int);
        }
        push_digits(r, v / base, out);
        out.push(digit_char(r, (v % base) as u8));
        assert(out@ =~= old(out)@ + spec_digits_chars(r, v as nat));
    }
}

/// The number of digits of `v` in radix `r` is at most `w` when `v`
/// is below `base^w`.
pub proof fn lemma_digits_chars_len(r: RadixFormat, v: nat, w: nat)
    requires
        1 <= w,
        v < pow(r.spec_radix() as int, w),
    ensures
        spec_digits_chars(r, v).len() <= w,
    decreases w,
{
    let base = r.spec_radix();
    if v < base {
    } else {
        assert(w >= 2) by {
            if w == 1 {
                assert(pow(base as int, 1) == base) by {
                    vstd::arithmetic::power::lemma_pow1(base as int);
                }
            }
        }
        assert(pow(base as int, w) == base * pow(base as int, (w - 1) as nat)) by {
            reveal_with_fuel(pow, 2);
        }
        assert(pow(base as int, (w - 1) as nat) > 0) by {
            vstd::arithmetic::power::lemma_pow_positive(base as int, (w - 1) as nat);
        }
        assert(v / base < pow(base as int, (w - 1) as nat)) by {
            vstd::arithmetic::div_mod::lemma_multiply_divide_lt(
                v as int,
                pow(base as int, (w - 1) as nat),
                base as int,
            );
        }
        lemma_digits_chars_len(r, v / base, (w - 1) as nat);
    }
}

/// A byte value always fits in the radix's padded width.
pub proof fn lemma_byte_digits_fit(r: RadixFormat, v: nat)
    requires
        v <= 255,
    ensures
        spec_digits_chars(r, v).len() <= r.spec_max_width(),
        spec_digits_chars(r, v).len() >= 1,
{
    let base = r.spec_radix() as int;
    let w = r.spec_max_width();
    assert(pow(base, w) > 255) by {
        reveal_with_fuel(pow, 9);
    }
    lemma_digits_chars_len(r, v, w);
}

// ------------------------------------------------------------------------
// Parsing a digit field
// ------------------------------------------------------------------------

/// Fold the digits of `s` onto the accumulator `acc`, left to right,
/// reporting the first failure: a non-digit of the base, or a value
/// growing past one byte.
pub open spec fn spec_parse_digits(base: nat, s: Seq<char>, acc: nat) -> Result<
    u8,
    ByteParseError,
>
    recommends
        acc <= 255,
    decreases s.len(),
{
    if s.len() == 0 {
        Ok(acc as u8)
    } else if !spec_is_digit(base, s[0]) {
        Err(ByteParseError::InvalidDigit)
    } else if acc * base + spec_char_val(s[0]) > 255 {
        Err(ByteParseError::PosOverflow)
    } else {
        spec_parse_digits(base, s.drop_first(), acc * base + spec_char_val(s[0]))
    }
}

/// Parse one byte field: an empty field is rejected as such, otherwise
/// the digits are folded from zero.
pub open spec fn spec_parse_field(base: nat, s: Seq<char>) -> Result<u8, ByteParseError> {
    if s.len() == 0 {
        Err(ByteParseError::Empty)
    } else {
        spec_parse_digits(base, s, 0)
    }
}

/// Parse the byte field `s` as digits of `base`.
pub fn parse_field(base: u32, s: &[char]) -> (r: Result<u8, ByteParseError>)
    requires
        2 <= base <= 16,
    ensures
        r == spec_parse_field(base as nat, s@),
{
    let n = s.len();
    if n == 0 {
        return Err(ByteParseError::Empty);
    }
    let mut acc: u32 = 0;
    let mut i: usize = 0;
    proof {
        assert(s@.subrange(0, n as int) =~= s@);
    }
    while i < n
        invariant
            0 <= i <= n,
            n == s@.len(),
            2 <= base <= 16,
            acc <= 255,
            spec_parse_digits(base as nat, s@, 0) == spec_parse_digits(
                base as nat,
                s@.subrange(i as int, n as int),
                acc as nat,
            ),
        decreases n - i,
    {
        let c = *vstd::slice::slice_index_get(s, i);
        let v = char_val(c);
        assert(s@.subrange(i as int, n as int)[0] == s@[i as int]);
        if v as u32 >= base {
            return Err(ByteParseError::InvalidDigit);
        }
        proof {
            assert(acc * base <= 255 * 16) by (nonlinear_arith)
                requires
                    acc <= 255,
                    base <= 16,
            ;
        }
        let next = acc * base + v as u32;
        if next > 255 {
            return Err(ByteParseError::PosOverflow);
        }
        proof {
            assert(s@.subrange(i as int, n as int).drop_first() =~= s@.subrange(
                i as int + 1,
                n as int,
            ));
        }
        acc = next;
        i = i + 1;
    }
    proof {
        assert(s@.subrange(n as int, n as int) =~= Seq::<char>::empty());
    }
    Ok(acc as u8)
}

// ------------------------------------------------------------------------
// Round trip: parsing what was rendered yields the value back
// ------------------------------------------------------------------------

/// Folding digits over a concatenation folds the first part, then the second
/// from the intermediate accumulator; the first failure carries over.
proof fn lemma_parse_digits_append(base: nat, s1: Seq<char>, s2: Seq<char>, acc: nat)
    requires
        acc <= 255,
    ensures
        spec_parse_digits(base, s1 + s2, acc) == (match spec_parse_digits(base, s1, acc) {
            Ok(m) => spec_parse_digits(base, s2, m as nat),
            Err(e) => Err::<u8, ByteParseError>(e),
        }),
    decreases s1.len(),
{
    if s1.len() == 0 {
        assert(s1 + s2 =~= s2);
    } else {
        let t = s1 + s2;
        assert(t[0] == s1[0]);
        if spec_is_digit(base, s1[0]) && acc * base + spec_char_val(s1[0]) <= 255 {
            assert(t.drop_first() =~= s1.drop_first() + s2);
            lemma_parse_digits_append(
                base,
                s1.drop_first(),
                s2,
                acc * base + spec_char_val(s1[0]),
            );
        }
    }
}

/// Every character that `spec_digits_chars` renders is a digit of the base.
proof fn lemma_digits_chars_are_digits(r: RadixFormat, v: nat)
    ensures
        forall|i: int|
            0 <= i < spec_digits_chars(r, v).len() ==> spec_char_val(
                #[trigger] spec_digits_chars(r, v)[i],
            ) < r.spec_radix(),
    decreases v,
{
    let base = r.spec_radix();
    let cs = spec_digits_chars(r, v);
    if v < base {
        lemma_digit_char_val(r, v);
        assert(cs[0] == spec_digit_char(r, v));
    } else {
        lemma_digits_chars_are_digits(r, v / base);
        vstd::arithmetic::div_mod::lemma_mod_bound(v as int, base as int);
        lemma_digit_char_val(r, (v % base) as nat);
        let hi = spec_digits_chars(r, v / base);
        assert forall|i: int| 0 <= i < cs.len() implies spec_char_val(#[trigger] cs[i])
            < base by {
            if i < hi.len() {
                assert(cs[i] == hi[i]);
            } else {
                assert(cs[i] == spec_digit_char(r, (v % base) as nat));
            }
        }
    }
}

/// Folding the rendered digits of `v` onto `acc` yields `acc`, shifted past
/// those digits, plus `v` — provided that total still fits one byte.
proof fn lemma_parse_of_digits_chars(r: RadixFormat, v: nat, acc: nat)
    requires
        acc * pow(r.spec_radix() as int, spec_digits_chars(r, v).len()) + v <= 255,
    ensures
        spec_parse_digits(r.spec_radix(), spec_digits_chars(r, v), acc) == Ok::<
            u8,
            ByteParseError,
        >(((acc * pow(r.spec_radix() as int, spec_digits_chars(r, v).len()) + v) as u8)),
    decreases v,
{
    let base = r.spec_radix();
    let cs = spec_digits_chars(r, v);
    vstd::arithmetic::power::lemma_pow_positive(base as int, cs.len());
    if v < base {
        lemma_digit_char_val(r, v);
        assert(pow(base as int, 1) == base) by {
            reveal_with_fuel(pow, 2);
        }
        assert(acc * base + v <= 255);
        let acc2 = (acc * base + v) as nat;
        assert(cs[0] == spec_digit_char(r, v) && spec_char_val(cs[0]) == v);
        assert(cs.drop_first() =~= Seq::<char>::empty());
        assert(spec_parse_digits(base, Seq::<char>::empty(), acc2) == Ok::<u8, ByteParseError>(
            (acc2 as u8),
        ));
        assert(spec_parse_digits(base, cs, acc) == spec_parse_digits(
            base,
            cs.drop_first(),
            acc2,
        ));
    } else {
        vstd::arithmetic::div_mod::lemma_fundamental_div_mod(v as int, base as int);
        vstd::arithmetic::div_mod::lemma_mod_bound(v as int, base as int);
        let hi = spec_digits_chars(r, v / base);
        let d = (v % base) as nat;
        assert(cs =~= hi + seq![spec_digit_char(r, d)]);
        let k = hi.len();
        assert(pow(base as int, k + 1) == pow(base as int, k) * base) by {
            vstd::arithmetic::power::lemma_pow_adds(base as int, k, 1);
            assert(pow(base as int, 1) == base) by {
                reveal_with_fuel(pow, 2);
            }
        }
        vstd::arithmetic::power::lemma_pow_positive(base as int, k);
        let p = pow(base as int, k);
        // the accumulator obligation for the recursive call
        assert(acc * (p * base) + ((v / base) * base + d) <= 255);
        assert(acc * p + v / base <= 255 && (acc * p + v / base) * base + d == acc * (p * base) + (
        (v / base) * base + d)) by (nonlinear_arith)
            requires
                base >= 2,
                p >= 1,
                d < base,
                0 <= acc,
                0 <= v / base,
                acc * (p * base) + ((v / base) * base + d) <= 255,
        ;
        lemma_parse_of_digits_chars(r, v / base, acc);
        let m = (acc * p + v / base) as nat;
        lemma_parse_digits_append(base, hi, seq![spec_digit_char(r, d)], acc);
        lemma_digit_char_val(r, d);
        let last = seq![spec_digit_char(r, d)];
        let m2 = (m * base + d) as nat;
        assert(last[0] == spec_digit_char(r, d) && spec_char_val(last[0]) == d);
        assert(last.drop_first() =~= Seq::<char>::empty());
        assert(spec_parse_digits(base, Seq::<char>::empty(), m2) == Ok::<u8, ByteParseError>(
            (m2 as u8),
        ));
        assert(spec_parse_digits(base, last, m) == spec_parse_digits(
            base,
            last.drop_first(),
            m2,
        ));
    }
}

/// Leading zero digits leave a zero accumulator unchanged.
proof fn lemma_parse_leading_zeros(base: nat, k: nat, s: Seq<char>)
    requires
        2 <= base,
    ensures
        spec_parse_digits(base, Seq::new(k, |i: int| '0') + s, 0) == spec_parse_digits(
            base,
            s,
            0,
        ),
    decreases k,
{
    if k == 0 {
        assert(Seq::new(0, |i: int| '0') + s =~= s);
    } else {
        let t = Seq::new(k, |i: int| '0') + s;
        assert(t[0] == '0');
        assert(spec_char_val('0') == 0);
        assert(t.drop_first() =~= Seq::new((k - 1) as nat, |i: int| '0') + s);
        lemma_parse_leading_zeros(base, (k - 1) as nat, s);
    }
}

// ------------------------------------------------------------------------
// A byte as one field
// ------------------------------------------------------------------------

/// The digit characters of byte `b` in radix `r`: minimal width when
/// `compact`, zero-padded to the radix's fixed width otherwise.
pub open spec fn spec_byte_field(r: RadixFormat, b: u8, compact: bool) -> Seq<char> {
    if compact {
        spec_digits_chars(r, b as nat)
    } else {
        spec_zero_pad(spec_digits_chars(r, b as nat), r.spec_max_width())
    }
}

/// The digit characters of `v` in radix `r`, left-padded with zeros to
/// width `w` (wider values keep their full digit count).
pub fn padded_digits(r: RadixFormat, v: u64, w: usize) -> (out: Vec<char>)
    ensures
        out@ == spec_zero_pad(spec_digits_chars(r, v as nat), w as nat),
{
    let mut digits: Vec<char> = Vec::new();
    push_digits(r, v, &mut digits);
    if digits.len() >= w {
        digits
    } else {
        let mut out: Vec<char> = Vec::new();
        let n = digits.len();
        while out.len() + n < w
            invariant
                n == digits@.len() <= w,
                out@.len() + n <= w,
                out@ =~= Seq::new(out@.len(), |i: int| '0'),
            decreases w - out.len() - n,
        {
            out.push('0');
        }
        let mut j: usize = 0;
        while j < n
            invariant
                0 <= j <= n,
                n == digits@.len(),
                out@ =~= Seq::new((out@.len() - j) as nat, |i: int| '0') + digits@.subrange(
                    0,
                    j as int,
                ),
                out@.len() == w - n + j,
            decreases n - j,
        {
            out.push(digits[j]);
            j = j + 1;
        }
        proof {
            assert(digits@.subrange(0, n as int) =~= digits@);
            assert(out@ =~= spec_zero_pad(spec_digits_chars(r, v as nat), w as nat));
        }
        out
    }
}

/// Render byte `b` as one field of radix `r` digits.
pub fn byte_field(r: RadixFormat, b: u8, compact: bool) -> (out: Vec<char>)
    ensures
        out@ == spec_byte_field(r, b, compact),
{
    if compact {
        let mut digits: Vec<char> = Vec::new();
        push_digits(r, b as u64, &mut digits);
        digits
    } else {
        padded_digits(r, b as u64, r.max_width())
    }
}

// ------------------------------------------------------------------------
// Space padding
// ------------------------------------------------------------------------

/// `n` space characters.
pub open spec fn spec_spaces(n: nat) -> Seq<char> {
    Seq::new(n, |i: int| ' ')
}

/// `n` copies of the character `c`.
pub open spec fn spec_repeat_char(c: char, n: nat) -> Seq<char> {
    Seq::new(n, |i: int| c)
}

/// `s` right-padded with spaces to width `w` (unchanged when already wide
/// enough).
pub open spec fn spec_left_align(s: Seq<char>, w: nat) -> Seq<char> {
    if s.len() >= w {
        s
    } else {
        s + spec_spaces((w - s.len()) as nat)
    }
}

/// The padded field has exactly the radix's fixed width, and every
/// character of a field is a digit of the radix.
pub proof fn lemma_byte_field_shape(r: RadixFormat, b: u8, compact: bool)
    ensures
        !compact ==> spec_byte_field(r, b, compact).len() == r.spec_max_width(),
        spec_byte_field(r, b, compact).len() >= 1,
        forall|i: int|
            0 <= i < spec_byte_field(r, b, compact).len() ==> spec_char_val(
                #[trigger] spec_byte_field(r, b, compact)[i],
            ) < r.spec_radix(),
{
    lemma_byte_digits_fit(r, b as nat);
    lemma_digits_chars_are_digits(r, b as nat);
    assert(spec_char_val('0') == 0);
}

// ------------------------------------------------------------------------
// Reading a string as characters
// ------------------------------------------------------------------------

/// The characters of `s`, in order.
pub fn str_chars(s: &str) -> (r: Vec<char>)
    ensures
        r@ == s@,
{
    let n = s.unicode_len();
    let mut out: Vec<char> = Vec::new();
    let mut i: usize = 0;
    while i < n
        invariant
            0 <= i <= n,
            n == s@.len(),
            out@ =~= s@.subrange(0, i as int),
        decreases n - i,
    {
        out.push(s.get_char(i));
        i = i + 1;
    }
    proof {
        assert(s@.subrange(0, n as int) =~= s@);
    }
    out
}

// ------------------------------------------------------------------------
// Splitting on a separator character
// ------------------------------------------------------------------------

/// Split `s` at every occurrence of `c`, as `str::split` does: the result
/// always holds one more field than there are separators, and an empty
/// input yields one empty field.
pub open spec fn spec_split(s: Seq<char>, c: char) -> Seq<Seq<char>>
    decreases s.len(),
{
    if s.len() == 0 {
        seq![Seq::<char>::empty()]
    } else {
        let rest = spec_split(s.drop_first(), c);
        if s[0] == c {
            seq![Seq::<char>::empty()] + rest
        } else {
            seq![seq![s[0]] + rest[0]] + rest.drop_first()
        }
    }
}

/// A split yields at least one field.
pub proof fn lemma_split_len_pos(s: Seq<char>, c: char)
    ensures
        spec_split(s, c).len() >= 1,
    decreases s.len(),
{
    if s.len() > 0 {
        lemma_split_len_pos(s.drop_first(), c);
    }
}

/// Prepending separator-free text extends the first field of a split.
pub proof fn lemma_split_prepend(p: Seq<char>, s: Seq<char>, c: char)
    requires
        forall|i: int| 0 <= i < p.len() ==> p[i] != c,
    ensures
        spec_split(p + s, c) == seq![p + spec_split(s, c)[0]] + spec_split(s, c).drop_first(),
    decreases p.len(),
{
    lemma_split_len_pos(s, c);
    if p.len() == 0 {
        assert(p + s =~= s);
        if s.len() == 0 {
            assert(p + spec_split(s, c)[0] =~= spec_split(s, c)[0]);
            assert(seq![p + spec_split(s, c)[0]] + spec_split(s, c).drop_first() =~= spec_split(
                s,
                c,
            ));
        } else {
            assert(p + spec_split(s, c)[0] =~= spec_split(s, c)[0]);
            assert(seq![p + spec_split(s, c)[0]] + spec_split(s, c).drop_first() =~= spec_split(
                s,
                c,
            ));
        }
    } else {
        let t = p + s;
        assert(t[0] == p[0] && p[0] != c);
        assert(t.drop_first() =~= p.drop_first() + s);
        lemma_split_prepend(p.drop_first(), s, c);
        let inner = spec_split(p.drop_first() + s, c);
        assert(spec_split(t, c) == seq![seq![t[0]] + inner[0]] + inner.drop_first());
        assert(seq![t[0]] + inner[0] =~= p + spec_split(s, c)[0]);
        assert(inner.drop_first() =~= spec_split(s, c).drop_first());
        assert(spec_split(t, c) =~= seq![p + spec_split(s, c)[0]] + spec_split(
            s,
            c,
        ).drop_first());
    }
}

/// Separator-free text splits to exactly one field: itself.
pub proof fn lemma_split_no_sep(s: Seq<char>, c: char)
    requires
        forall|i: int| 0 <= i < s.len() ==> s[i] != c,
    ensures
        spec_split(s, c) == seq![s],
{
    lemma_split_prepend(s, Seq::<char>::empty(), c);
    assert(s + Seq::<char>::empty() =~= s);
    assert(spec_split(Seq::<char>::empty(), c) == seq![Seq::<char>::empty()]);
    assert(s + Seq::<char>::empty() =~= s);
    assert(spec_split(s, c) =~= seq![s]);
}

/// A separator after separator-free text closes the first field.
pub proof fn lemma_split_at_sep(f: Seq<char>, t: Seq<char>, c: char)
    requires
        forall|i: int| 0 <= i < f.len() ==> f[i] != c,
    ensures
        spec_split(f + seq![c] + t, c) == seq![f] + spec_split(t, c),
{
    lemma_split_len_pos(t, c);
    assert((seq![c] + t)[0] == c);
    assert((seq![c] + t).drop_first() =~= t);
    assert(spec_split(seq![c] + t, c) == seq![Seq::<char>::empty()] + spec_split(t, c));
    lemma_split_prepend(f, seq![c] + t, c);
    assert(f + (seq![c] + t) =~= f + seq![c] + t);
    assert(f + (seq![Seq::<char>::empty()] + spec_split(t, c))[0] =~= f);
    assert((seq![Seq::<char>::empty()] + spec_split(t, c)).drop_first() =~= spec_split(t, c));
    assert(spec_split(f + seq![c] + t, c) =~= seq![f] + spec_split(t, c));
}

/// Split `s` at every occurrence of `sep`.
pub fn split_chars(s: &[char], sep: char) -> (r: Vec<Vec<char>>)
    ensures
        r@.len() == spec_split(s@, sep).len(),
        forall|i: int| 0 <= i < r@.len() ==> r@[i]@ == spec_split(s@, sep)[i],
{
    let ghost whole = s@;
    let n = s.len();
    let mut done: Vec<Vec<char>> = Vec::new();
    let mut cur: Vec<char> = Vec::new();
    let mut i: usize = 0;
    proof {
        assert(s@.subrange(0, n as int) =~= s@);
        lemma_split_len_pos(s@, sep);
        assert(done@.map_values(|v: Vec<char>| v@) =~= Seq::<Seq<char>>::empty());
        assert(cur@ + spec_split(s@, sep)[0] =~= spec_split(s@, sep)[0]);
        assert(spec_split(s@, sep) =~= seq![spec_split(s@, sep)[0]] + spec_split(
            s@,
            sep,
        ).drop_first());
    }
    while i < n
        invariant
            0 <= i <= n,
            n == s@.len(),
            forall|j: int| 0 <= j < cur@.len() ==> cur@[j] != sep,
            spec_split(s@, sep) == done@.map_values(|v: Vec<char>| v@) + seq![cur@ + spec_split(
                s@.subrange(i as int, n as int),
                sep,
            )[0]] + spec_split(s@.subrange(i as int, n as int), sep).drop_first(),
        decreases n - i,
    {
        proof {
            lemma_split_len_pos(s@.subrange(i as int + 1, n as int), sep);
            assert(s@.subrange(i as int, n as int)[0] == s@[i as int]);
            assert(s@.subrange(i as int, n as int).drop_first() =~= s@.subrange(
                i as int + 1,
                n as int,
            ));
        }
        let x = *vstd::slice::slice_index_get(s, i);
        if x == sep {
            let ghost old_done = done@;
            let ghost old_cur = cur@;
            done.push(cur);
            cur = Vec::new();
            proof {
                let rem = s@.subrange(i as int + 1, n as int);
                assert(old_cur + Seq::<char>::empty() =~= old_cur);
                assert(done@.map_values(|v: Vec<char>| v@) =~= old_done.map_values(
                    |v: Vec<char>| v@,
                ).push(old_cur));
                assert(spec_split(s@, sep) =~= done@.map_values(|v: Vec<char>| v@) + seq![cur@
                    + spec_split(rem, sep)[0]] + spec_split(rem, sep).drop_first());
            }
        } else {
            let ghost old_cur = cur@;
            cur.push(x);
            proof {
                let rem = s@.subrange(i as int + 1, n as int);
                let inner = spec_split(rem, sep);
                assert(old_cur + (seq![s@[i as int]] + inner[0]) =~= cur@ + inner[0]);
                assert(spec_split(s@, sep) =~= done@.map_values(|v: Vec<char>| v@) + seq![cur@
                    + inner[0]] + inner.drop_first());
            }
        }
        i = i + 1;
    }
    let ghost old_done = done@;
    let ghost old_cur = cur@;
    done.push(cur);
    proof {
        assert(s@.subrange(n as int, n as int) =~= Seq::<char>::empty());
        assert(old_cur + Seq::<char>::empty() =~= old_cur);
        assert(done@.map_values(|v: Vec<char>| v@) =~= old_done.map_values(
            |v: Vec<char>| v@,
        ).push(old_cur));
        assert(spec_split(s@, sep) =~= done@.map_values(|v: Vec<char>| v@));
        assert(forall|i: int|
            0 <= i < done@.len() ==> done@[i]@ == done@.map_values(|v: Vec<char>| v@)[i]);
    }
    done
}

// ------------------------------------------------------------------------
// Trimming surrounding whitespace
// ------------------------------------------------------------------------

/// `s` without its leading whitespace.
pub open spec fn spec_trim_start(s: Seq<char>) -> Seq<char>
    decreases s.len(),
{
    if s.len() > 0 && spec_is_space(s[0]) {
        spec_trim_start(s.drop_first())
    } else {
        s
    }
}

/// `s` without its trailing whitespace.
pub open spec fn spec_trim_end(s: Seq<char>) -> Seq<char>
    decreases s.len(),
{
    if s.len() > 0 && spec_is_space(s.last()) {
        spec_trim_end(s.drop_last())
    } else {
        s
    }
}

/// `s` without surrounding whitespace, as `str::trim` yields it.
pub open spec fn spec_trim(s: Seq<char>) -> Seq<char> {
    spec_trim_end(spec_trim_start(s))
}

/// Trimming leaves text without surrounding whitespace unchanged, and
/// removes an all-whitespace prefix before such text.
pub proof fn lemma_trim_plain(p: Seq<char>, s: Seq<char>)
    requires
        forall|i: int| 0 <= i < p.len() ==> spec_is_space(#[trigger] p[i]),
        forall|i: int| 0 <= i < s.len() ==> !spec_is_space(#[trigger] s[i]),
        s.len() > 0,
    ensures
        spec_trim(p + s) == s,
    decreases p.len(),
{
    if p.len() == 0 {
        assert(p + s =~= s);
        assert(spec_trim_start(s) == s);
        assert(!spec_is_space(s.last()));
        assert(spec_trim_end(s) == s);
    } else {
        let t = p + s;
        assert(t[0] == p[0] && spec_is_space(t[0]));
        assert(t.drop_first() =~= p.drop_first() + s);
        lemma_trim_plain(p.drop_first(), s);
        assert(spec_trim_start(p.drop_first() + s) == spec_trim_start(s)) by {
            lemma_trim_start_skips(p.drop_first(), s);
        }
        assert(spec_trim_start(t) == spec_trim_start(s)) by {
            lemma_trim_start_skips(p, s);
        }
    }
}

/// Leading whitespace never reaches past an all-whitespace prefix.
proof fn lemma_trim_start_skips(p: Seq<char>, s: Seq<char>)
    requires
        forall|i: int| 0 <= i < p.len() ==> spec_is_space(#[trigger] p[i]),
    ensures
        spec_trim_start(p + s) == spec_trim_start(s),
    decreases p.len(),
{
    if p.len() == 0 {
        assert(p + s =~= s);
    } else {
        let t = p + s;
        assert(t[0] == p[0] && spec_is_space(t[0]));
        assert(t.drop_first() =~= p.drop_first() + s);
        lemma_trim_start_skips(p.drop_first(), s);
    }
}

/// Remove the surrounding whitespace of `s`.
pub fn trim_chars(s: &[char]) -> (r: Vec<char>)
    ensures
        r@ == spec_trim(s@),
{
    let n = s.len();
    let mut a: usize = 0;
    proof {
        assert(s@.subrange(0, n as int) =~= s@);
    }
    while a < n && is_space(*vstd::slice::slice_index_get(s, a))
        invariant
            0 <= a <= n,
            n == s@.len(),
            spec_trim_start(s@) == spec_trim_start(s@.subrange(a as int, n as int)),
        decreases n - a,
    {
        proof {
            assert(s@.subrange(a as int, n as int)[0] == s@[a as int]);
            assert(s@.subrange(a as int, n as int).drop_first() =~= s@.subrange(
                a as int + 1,
                n as int,
            ));
        }
        a = a + 1;
    }
    proof {
        if a < n {
            assert(s@.subrange(a as int, n as int)[0] == s@[a as int]);
        }
        assert(spec_trim_start(s@) == s@.subrange(a as int, n as int));
    }
    let mut b: usize = n;
    while b > a && is_space(*vstd::slice::slice_index_get(s, b - 1))
        invariant
            a <= b <= n,
            n == s@.len(),
            spec_trim_start(s@) == s@.subrange(a as int, n as int),
            spec_trim_end(s@.subrange(a as int, n as int)) == spec_trim_end(
                s@.subrange(a as int, b as int),
            ),
        decreases b,
    {
        proof {
            let part = s@.subrange(a as int, b as int);
            assert(part.last() == s@[b as int - 1]);
            assert(part.drop_last() =~= s@.subrange(a as int, b as int - 1));
        }
        b = b - 1;
    }
    proof {
        let part = s@.subrange(a as int, b as int);
        if b > a {
            assert(part.last() == s@[b as int - 1]);
        }
        assert(spec_trim_end(part) == part);
    }
    let piece = vstd::slice::slice_subrange(s, a, b);
    vstd::slice::slice_to_vec(piece)
}

// ------------------------------------------------------------------------
// Joining fields with a separator
// ------------------------------------------------------------------------

/// The fields joined with `sep` between consecutive fields.
pub open spec fn spec_join(fields: Seq<Seq<char>>, sep: Seq<char>) -> Seq<char>
    decreases fields.len(),
{
    if fields.len() == 0 {
        Seq::<char>::empty()
    } else if fields.len() == 1 {
        fields[0]
    } else {
        fields[0] + sep + spec_join(fields.drop_first(), sep)
    }
}

/// Joining one more field appends a separator and that field.
pub proof fn lemma_join_push(fields: Seq<Seq<char>>, sep: Seq<char>, f: Seq<char>)
    ensures
        fields.len() == 0 ==> spec_join(fields.push(f), sep) == f,
        fields.len() > 0 ==> spec_join(fields.push(f), sep) == spec_join(fields, sep) + sep + f,
    decreases fields.len(),
{
    if fields.len() == 0 {
        assert(fields.push(f)[0] == f);
    } else if fields.len() == 1 {
        let fs = fields.push(f);
        assert(fs[0] == fields[0]);
        assert(fs.drop_first() =~= seq![f]);
        assert(spec_join(fs.drop_first(), sep) == f);
    } else {
        let fs = fields.push(f);
        assert(fs[0] == fields[0]);
        assert(fs.drop_first() =~= fields.drop_first().push(f));
        lemma_join_push(fields.drop_first(), sep, f);
        assert(spec_join(fields, sep) + sep + f =~= fields[0] + sep + (spec_join(
            fields.drop_first(),
            sep,
        ) + sep + f));
    }
}

/// Splitting a join at the separator's first character recovers the
/// fields, each but the first led by the separator's remainder.
pub proof fn lemma_split_of_join(
    p: Seq<char>,
    fields: Seq<Seq<char>>,
    c: char,
    tail: Seq<char>,
)
    requires
        fields.len() >= 1,
        forall|i: int| 0 <= i < p.len() ==> p[i] != c,
        forall|i: int| 0 <= i < tail.len() ==> tail[i] != c,
        forall|i: int, j: int|
            0 <= i < fields.len() && 0 <= j < fields[i].len() ==> #[trigger] fields[i][j] != c,
    ensures
        spec_split(p + spec_join(fields, seq![c] + tail), c) == Seq::new(
            fields.len(),
            |i: int| if i == 0 { p + fields[0] } else { tail + fields[i] },
        ),
    decreases fields.len(),
{
    if fields.len() == 1 {
        assert(forall|i: int| 0 <= i < (p + fields[0]).len() ==> (p + fields[0])[i] != c);
        lemma_split_no_sep(p + fields[0], c);
        assert(spec_split(p + spec_join(fields, seq![c] + tail), c) =~= Seq::new(
            fields.len(),
            |i: int| if i == 0 { p + fields[0] } else { tail + fields[i] },
        ));
    } else {
        let sep = seq![c] + tail;
        let rest = fields.drop_first();
        assert(spec_join(fields, sep) == fields[0] + sep + spec_join(rest, sep));
        let f = p + fields[0];
        assert(forall|i: int| 0 <= i < f.len() ==> f[i] != c);
        assert(p + spec_join(fields, sep) =~= f + seq![c] + (tail + spec_join(rest, sep)));
        lemma_split_at_sep(f, tail + spec_join(rest, sep), c);
        lemma_split_of_join(tail, rest, c, tail);
        assert(spec_split(p + spec_join(fields, sep), c) =~= Seq::new(
            fields.len(),
            |i: int| if i == 0 { p + fields[0] } else { tail + fields[i] },
        ));
    }
}

// ------------------------------------------------------------------------
// Parsing a sequence of fields
// ------------------------------------------------------------------------

/// Parse every field as one byte, trimming surrounding whitespace first
/// when `trim` is set; the first failure is reported.
pub open spec fn spec_parse_fields(base: nat, fields: Seq<Seq<char>>, trim: bool) -> Result<
    Seq<u8>,
    ByteParseError,
>
    decreases fields.len(),
{
    if fields.len() == 0 {
        Ok(Seq::<u8>::empty())
    } else {
        let f = if trim {
            spec_trim(fields[0])
        } else {
            fields[0]
        };
        match spec_parse_field(base, f) {
            Err(e) => Err(e),
            Ok(b) => match spec_parse_fields(base, fields.drop_first(), trim) {
                Err(e) => Err(e),
                Ok(bs) => Ok(seq![b] + bs),
            },
        }
    }
}

/// Fields that carry the rendered bytes (each possibly after whitespace
/// that trimming removes) parse back to exactly those bytes.
pub proof fn lemma_parse_fields_round_trip(
    fields: Seq<Seq<char>>,
    bytes: Seq<u8>,
    r: RadixFormat,
    compact: bool,
    trim: bool,
)
    requires
        fields.len() == bytes.len(),
        forall|i: int|
            0 <= i < fields.len() ==> (if trim {
                spec_trim(#[trigger] fields[i])
            } else {
                fields[i]
            }) == spec_byte_field(r, bytes[i], compact),
    ensures
        spec_parse_fields(r.spec_radix(), fields, trim) == Ok::<Seq<u8>, ByteParseError>(bytes),
    decreases fields.len(),
{
    if fields.len() == 0 {
        assert(bytes =~= Seq::<u8>::empty());
    } else {
        lemma_byte_field_round_trip(r, bytes[0], compact);
        lemma_parse_fields_round_trip(
            fields.drop_first(),
            bytes.drop_first(),
            r,
            compact,
            trim,
        );
        assert(seq![bytes[0]] + bytes.drop_first() =~= bytes);
    }
}

/// Parsing the field rendered from byte `b` yields `b` again, whatever
/// the radix and width mode.
pub proof fn lemma_byte_field_round_trip(r: RadixFormat, b: u8, compact: bool)
    ensures
        spec_parse_field(r.spec_radix(), spec_byte_field(r, b, compact)) == Ok::<
            u8,
            ByteParseError,
        >(b),
{
    let base = r.spec_radix();
    let cs = spec_digits_chars(r, b as nat);
    lemma_byte_digits_fit(r, b as nat);
    vstd::arithmetic::power::lemma_pow_positive(base as int, cs.len());
    lemma_parse_of_digits_chars(r, b as nat, 0);
    if !compact && cs.len() < r.spec_max_width() {
        let k = (r.spec_max_width() - cs.len()) as nat;
        lemma_parse_leading_zeros(base, k, cs);
        assert(spec_byte_field(r, b, compact) =~= Seq::new(k, |i: int| '0') + cs);
        assert(spec_byte_field(r, b, compact).len() > 0);
    }
}

} // verus!
