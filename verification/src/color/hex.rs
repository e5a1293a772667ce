//! Colours written as hexadecimal text.

use vstd::prelude::*;

use super::Rgba;
use crate::text::chars_of;

verus! {

/// Why a text is not a colour.
#[derive(Copy, Clone, Debug, PartialEq, Eq, Structural)]
pub enum HexError {
    /// There is nothing but white space.
    Empty,
    /// The text does not start with `#`.
    MissingPrefix,
    /// The number of digits after the `#` is not 3, 4, 6 or 8.
    InvalidLength,
    /// A character after the `#` is not a hexadecimal digit.
    InvalidDigit,
}

/// The white space that may surround a colour.
pub open spec fn is_space(c: char) -> bool {
    c == ' ' || c == '\t' || c == '\n' || c == '\r'
}

/// The value of a hexadecimal digit, in either case.
pub open spec fn digit_value(c: char) -> Option<u8> {
    if '0' <= c <= '9' {
        Some((c as u32 - '0' as u32) as u8)
    } else if 'a' <= c <= 'f' {
        Some((c as u32 - 'a' as u32 + 10) as u8)
    } else if 'A' <= c <= 'F' {
        Some((c as u32 - 'A' as u32 + 10) as u8)
    } else {
        None
    }
}

/// How many white space characters `s` starts with.
pub open spec fn leading_spaces(s: Seq<char>) -> nat
    decreases s.len(),
{
    if s.len() > 0 && is_space(s[0]) {
        1 + leading_spaces(s.drop_first())
    } else {
        0
    }
}

/// How many white space characters `s` ends with.
pub open spec fn trailing_spaces(s: Seq<char>) -> nat
    decreases s.len(),
{
    if s.len() > 0 && is_space(s.last()) {
        1 + trailing_spaces(s.drop_last())
    } else {
        0
    }
}

/// `s` without the white space at its two ends.
pub open spec fn trimmed(s: Seq<char>) -> Seq<char> {
    if leading_spaces(s) == s.len() {
        Seq::empty()
    } else {
        s.subrange(leading_spaces(s) as int, s.len() - trailing_spaces(s))
    }
}

/// Whether every character of `t` after the first is a hexadecimal digit.
pub open spec fn all_digits(t: Seq<char>) -> bool {
    forall|i: int| 1 <= i < t.len() ==> (#[trigger] digit_value(t[i])) is Some
}

/// The byte that two hexadecimal digits spell.
pub open spec fn byte_of(high: char, low: char) -> u8 {
    (16 * digit_value(high).unwrap() + digit_value(low).unwrap()) as u8
}

/// The colour that a text without surrounding white space spells.
pub open spec fn parse_token(t: Seq<char>) -> Result<Rgba, HexError> {
    if t.len() == 0 {
        Err(HexError::Empty)
    } else if t[0] != '#' {
        Err(HexError::MissingPrefix)
    } else if t.len() != 4 && t.len() != 5 && t.len() != 7 && t.len() != 9 {
        Err(HexError::InvalidLength)
    } else if !all_digits(t) {
        Err(HexError::InvalidDigit)
    } else if t.len() == 4 {
        Ok(Rgba(byte_of(t[1], t[1]), byte_of(t[2], t[2]), byte_of(t[3], t[3]), 0xFF))
    } else if t.len() == 5 {
        Ok(Rgba(byte_of(t[1], t[1]), byte_of(t[2], t[2]), byte_of(t[3], t[3]), byte_of(t[4], t[4])))
    } else if t.len() == 7 {
        Ok(Rgba(byte_of(t[1], t[2]), byte_of(t[3], t[4]), byte_of(t[5], t[6]), 0xFF))
    } else {
        Ok(Rgba(byte_of(t[1], t[2]), byte_of(t[3], t[4]), byte_of(t[5], t[6]), byte_of(t[7], t[8])))
    }
}

/// The colour that a text spells: `#RGB`, `#RGBA`, `#RRGGBB` or `#RRGGBBAA`
/// with any white space around it. A short form doubles each digit, and a
/// form without alpha is opaque.
pub open spec fn parse_hex(s: Seq<char>) -> Result<Rgba, HexError> {
    parse_token(trimmed(s))
}

/// A text that starts with `i` white space characters and then ends or goes
/// on with another character has exactly `i` leading ones.
proof fn lemma_leading_spaces(s: Seq<char>, i: int)
    requires
        0 <= i <= s.len(),
        forall|k: int| 0 <= k < i ==> is_space(#[trigger] s[k]),
        i == s.len() || !is_space(s[i]),
    ensures
        leading_spaces(s) == i,
    decreases i,
{
    if i > 0 {
        let rest = s.drop_first();
        assert(is_space(s[0]));
        assert forall|k: int| 0 <= k < i - 1 implies is_space(#[trigger] rest[k]) by {
            assert(rest[k] == s[k + 1]);
        }
        if i < s.len() {
            assert(rest[i - 1] == s[i]);
        }
        lemma_leading_spaces(rest, i - 1);
    }
}

/// A text whose last `n` characters are white space, and which has none or
/// another character before them, has exactly `n` trailing ones.
proof fn lemma_trailing_spaces(s: Seq<char>, n: int)
    requires
        0 <= n <= s.len(),
        forall|k: int| s.len() - n <= k < s.len() ==> is_space(#[trigger] s[k]),
        n == s.len() || !is_space(s[s.len() - n - 1]),
    ensures
        trailing_spaces(s) == n,
    decreases n,
{
    if n > 0 {
        let rest = s.drop_last();
        assert(is_space(s.last()));
        assert forall|k: int| rest.len() - (n - 1) <= k < rest.len() implies is_space(
            #[trigger] rest[k],
        ) by {
            assert(rest[k] == s[k]);
        }
        if n < s.len() {
            assert(rest[rest.len() - (n - 1) - 1] == s[s.len() - n - 1]);
        }
        lemma_trailing_spaces(rest, n - 1);
    }
}

/// The short forms stand for the long ones with every digit doubled.
pub proof fn lemma_short_forms_double(r: char, g: char, b: char, a: char)
    ensures
        parse_token(seq!['#', r, g, b]) == parse_token(seq!['#', r, r, g, g, b, b]),
        parse_token(seq!['#', r, g, b, a]) == parse_token(seq!['#', r, r, g, g, b, b, a, a]),
{
    let short3 = seq!['#', r, g, b];
    let long6 = seq!['#', r, r, g, g, b, b];
    let short4 = seq!['#', r, g, b, a];
    let long8 = seq!['#', r, r, g, g, b, b, a, a];
    if all_digits(short3) {
        assert(digit_value(short3[1]) is Some && digit_value(short3[2]) is Some && digit_value(
            short3[3],
        ) is Some);
        assert(all_digits(long6));
    } else {
        let i = choose|i: int| 1 <= i < short3.len() && !(#[trigger] digit_value(short3[i]) is Some);
        assert(!(digit_value(long6[2 * i - 1]) is Some));
    }
    if all_digits(short4) {
        assert(digit_value(short4[1]) is Some && digit_value(short4[2]) is Some && digit_value(
            short4[3],
        ) is Some && digit_value(short4[4]) is Some);
        assert(all_digits(long8));
    } else {
        let i = choose|i: int| 1 <= i < short4.len() && !(#[trigger] digit_value(short4[i]) is Some);
        assert(!(digit_value(long8[2 * i - 1]) is Some));
    }
}

/// A hexadecimal digit as text, in either case, has the value that it was
/// made from.
proof fn lemma_digit_round_trip(d: u8)
    requires
        d < 16,
    ensures
        digit_value(crate::text::hex_digit(d) as char) == Some(d),
        digit_value(crate::text::lower_hex_digit(d) as char) == Some(d),
        !is_space(crate::text::hex_digit(d) as char),
        !is_space(crate::text::lower_hex_digit(d) as char),
{
}

/// A `#` and eight hexadecimal digits spell the colour whose channels the
/// digits give in pairs.
proof fn lemma_reads_eight_digits(t: Seq<char>, d: Seq<u8>)
    requires
        t.len() == 9,
        d.len() == 8,
        t[0] == '#',
        forall|i: int|
            0 <= i < 8 ==> d[i] < 16 && digit_value(#[trigger] t[i + 1]) == Some(d[i]) && !is_space(
                t[i + 1],
            ),
    ensures
        parse_hex(t) == Ok::<Rgba, HexError>(
            Rgba(
                (16 * d[0] + d[1]) as u8,
                (16 * d[2] + d[3]) as u8,
                (16 * d[4] + d[5]) as u8,
                (16 * d[6] + d[7]) as u8,
            ),
        ),
{
    lemma_leading_spaces(t, 0);
    assert(!is_space(t[7int + 1]));
    lemma_trailing_spaces(t, 0);
    assert(trimmed(t) =~= t);
    assert forall|i: int| 1 <= i < t.len() implies (#[trigger] digit_value(t[i])) is Some by {
        assert(digit_value(t[(i - 1) + 1]) == Some(d[i - 1]));
    }
    assert(digit_value(t[0int + 1]) == Some(d[0]));
    assert(digit_value(t[1int + 1]) == Some(d[1]));
    assert(digit_value(t[2int + 1]) == Some(d[2]));
    assert(digit_value(t[3int + 1]) == Some(d[3]));
    assert(digit_value(t[4int + 1]) == Some(d[4]));
    assert(digit_value(t[5int + 1]) == Some(d[5]));
    assert(digit_value(t[6int + 1]) == Some(d[6]));
    assert(digit_value(t[7int + 1]) == Some(d[7]));
}

/// The two halves of each channel of a colour, most significant first.
pub open spec fn halves(color: Rgba) -> Seq<u8> {
    seq![
        (color.0 / 16) as u8,
        (color.0 % 16) as u8,
        (color.1 / 16) as u8,
        (color.1 % 16) as u8,
        (color.2 / 16) as u8,
        (color.2 % 16) as u8,
        (color.3 / 16) as u8,
        (color.3 % 16) as u8,
    ]
}

/// A `#` and the digits of the halves of a colour's channels spell the
/// colour.
proof fn lemma_reads_halves(color: Rgba, t: Seq<char>)
    requires
        t.len() == 9,
        t[0] == '#',
        forall|i: int|
            0 <= i < 8 ==> digit_value(#[trigger] t[i + 1]) == Some(halves(color)[i]) && !is_space(
                t[i + 1],
            ),
    ensures
        parse_hex(t) == Ok::<Rgba, HexError>(color),
{
    lemma_reads_eight_digits(t, halves(color));
}

/// A colour written as text in upper case reads back as itself.
pub proof fn lemma_upper_hex_round_trip(color: Rgba)
    ensures
        parse_hex(color.spec_upper_hex()) == Ok::<Rgba, HexError>(color),
{
    let t = color.spec_upper_hex();
    let d = halves(color);
    let bytes = crate::text::hex_pair(color.0) + crate::text::hex_pair(color.1)
        + crate::text::hex_pair(color.2) + crate::text::hex_pair(color.3);
    assert(bytes.len() == 8);
    assert forall|i: int| 0 <= i < 8 implies bytes[i] == crate::text::hex_digit(
        #[trigger] d[i],
    ) by {}
    assert(t.len() == 9);
    assert forall|i: int| 0 <= i < 8 implies digit_value(#[trigger] t[i + 1]) == Some(d[i])
        && !is_space(t[i + 1]) by {
        assert(t[i + 1] == crate::text::ascii(bytes)[i]);
        assert(bytes[i] == crate::text::hex_digit(d[i]));
        lemma_digit_round_trip(d[i]);
    }
    lemma_reads_halves(color, t);
}

/// A colour written as text in lower case reads back as itself.
pub proof fn lemma_lower_hex_round_trip(color: Rgba)
    ensures
        parse_hex(color.spec_lower_hex()) == Ok::<Rgba, HexError>(color),
{
    let t = color.spec_lower_hex();
    let d = halves(color);
    let bytes = crate::text::lower_hex_pair(color.0) + crate::text::lower_hex_pair(color.1)
        + crate::text::lower_hex_pair(color.2) + crate::text::lower_hex_pair(color.3);
    assert(bytes.len() == 8);
    assert forall|i: int| 0 <= i < 8 implies bytes[i] == crate::text::lower_hex_digit(
        #[trigger] d[i],
    ) by {}
    assert(t.len() == 9);
    assert forall|i: int| 0 <= i < 8 implies digit_value(#[trigger] t[i + 1]) == Some(d[i])
        && !is_space(t[i + 1]) by {
        assert(t[i + 1] == crate::text::ascii(bytes)[i]);
        assert(bytes[i] == crate::text::lower_hex_digit(d[i]));
        lemma_digit_round_trip(d[i]);
    }
    lemma_reads_halves(color, t);
}

fn space(c: char) -> (r: bool)
    ensures
        r == is_space(c),
{
    c == ' ' || c == '\t' || c == '\n' || c == '\r'
}

fn to_digit(c: char) -> (r: Option<u8>)
    ensures
        r == digit_value(c),
        r is Some ==> r.unwrap() < 16,
{
    if '0' <= c && c <= '9' {
        Some((c as u32 - '0' as u32) as u8)
    } else if 'a' <= c && c <= 'f' {
        Some((c as u32 - 'a' as u32 + 10) as u8)
    } else if 'A' <= c && c <= 'F' {
        Some((c as u32 - 'A' as u32 + 10) as u8)
    } else {
        None
    }
}

fn pack(high: u8, low: u8) -> (r: u8)
    requires
        high < 16,
        low < 16,
    ensures
        r == 16 * high + low,
{
    let r: u8 = (high << 4) | low;
    assert(r == 16 * high + low) by (bit_vector)
        requires
            r == (high << 4) | low,
            high < 16,
            low < 16,
    ;
    r
}

/// Reads a colour from a text.
pub(crate) fn scan(color: &str) -> (out: Result<Rgba, HexError>)
    ensures
        out == parse_hex(color@),
{
    let chars = chars_of(color);
    let len: usize = chars.len();

    let mut start: usize = 0;
    while start < len && space(chars[start])
        invariant
            start <= len,
            len == chars@.len(),
            forall|k: int| 0 <= k < start ==> is_space(#[trigger] chars@[k]),
        decreases len - start,
    {
        start += 1;
    }
    proof {
        lemma_leading_spaces(chars@, start as int);
    }
    if start == len {
        return Err(HexError::Empty);
    }
    let mut end: usize = len;
    while end > start && space(chars[end - 1])
        invariant
            start < len,
            start <= end <= len,
            len == chars@.len(),
            !is_space(chars@[start as int]),
            forall|k: int| end <= k < len ==> is_space(#[trigger] chars@[k]),
        decreases end,
    {
        end -= 1;
    }
    proof {
        lemma_trailing_spaces(chars@, len - end);
    }
    let ghost token = chars@.subrange(start as int, end as int);
    assert(token == trimmed(color@));
    assert(token.len() == end - start);
    assert(token[0] == chars@[start as int]);

    if chars[start] != '#' {
        return Err(HexError::MissingPrefix);
    }
    let count: usize = end - start;
    if count != 4 && count != 5 && count != 7 && count != 9 {
        return Err(HexError::InvalidLength);
    }
    let mut digits: Vec<u8> = Vec::new();
    let mut i: usize = start + 1;
    while i < end
        invariant
            start < i <= end <= len,
            len == chars@.len(),
            token == chars@.subrange(start as int, end as int),
            token == trimmed(color@),
            token[0] == '#',
            count == token.len(),
            count == 4 || count == 5 || count == 7 || count == 9,
            digits@.len() == i - start - 1,
            forall|k: int|
                0 <= k < digits@.len() ==> digit_value(#[trigger] token[k + 1]) == Some(digits@[k]),
            forall|k: int| 0 <= k < digits@.len() ==> #[trigger] digits@[k] < 16,
        decreases end - i,
    {
        match to_digit(chars[i]) {
            Some(d) => {
                assert(token[i - start] == chars@[i as int]);
                digits.push(d);
            },
            None => {
                assert(token[i - start] == chars@[i as int]);
                assert(!all_digits(token));
                return Err(HexError::InvalidDigit);
            },
        }
        i += 1;
    }
    assert(all_digits(token)) by {
        assert forall|k: int| 1 <= k < token.len() implies (#[trigger] digit_value(token[k]))
            is Some by {
            assert(digit_value(token[(k - 1) + 1]) == Some(digits@[k - 1]));
        }
    }
    proof {
        assert forall|k: int| 0 <= k < digits@.len() implies digit_value(token[k + 1]).unwrap()
            == #[trigger] digits@[k] by {}
    }
    let out = if count == 4 {
        Rgba(
            pack(digits[0], digits[0]),
            pack(digits[1], digits[1]),
            pack(digits[2], digits[2]),
            0xFF,
        )
    } else if count == 5 {
        Rgba(
            pack(digits[0], digits[0]),
            pack(digits[1], digits[1]),
            pack(digits[2], digits[2]),
            pack(digits[3], digits[3]),
        )
    } else if count == 7 {
        Rgba(
            pack(digits[0], digits[1]),
            pack(digits[2], digits[3]),
            pack(digits[4], digits[5]),
            0xFF,
        )
    } else {
        Rgba(
            pack(digits[0], digits[1]),
            pack(digits[2], digits[3]),
            pack(digits[4], digits[5]),
            pack(digits[6], digits[7]),
        )
    };
    Ok(out)
}

} // verus!
