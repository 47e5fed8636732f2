//! Hexadecimal color notation: three or six hex digits, `#` marks ignored.
use vstd::arithmetic::div_mod::lemma_fundamental_div_mod_converse;
use vstd::prelude::*;

verus! {

/// Why a hex color string was rejected.
#[derive(Debug, Clone, Copy, PartialEq, Eq, Structural)]
pub enum HexError {
    /// Without its `#` marks the string is neither three nor six characters long.
    InvalidHexLength,
    /// A character of the string is not a hexadecimal digit.
    InvalidHexDigit,
}

/// The value of a hexadecimal digit, in either case; `None` for any other character.
pub open spec fn hex_digit_value(c: char) -> Option<nat> {
    let code = c as int;
    if '0' as int <= code <= '9' as int {
        Some((code - '0' as int) as nat)
    } else if 'a' as int <= code <= 'f' as int {
        Some((code - 'a' as int + 10) as nat)
    } else if 'A' as int <= code <= 'F' as int {
        Some((code - 'A' as int + 10) as nat)
    } else {
        None
    }
}

/// Reads one hexadecimal digit.
pub fn hex_digit(c: char) -> (v: Option<u8>)
    ensures
        v matches Some(d) ==> hex_digit_value(c) == Some(d as nat) && d < 16,
        v is None ==> hex_digit_value(c) is None,
{
    if '0' <= c && c <= '9' {
        Some(c as u8 - '0' as u8)
    } else if 'a' <= c && c <= 'f' {
        Some(c as u8 - 'a' as u8 + 10)
    } else if 'A' <= c && c <= 'F' {
        Some(c as u8 - 'A' as u8 + 10)
    } else {
        None
    }
}

/// The characters of `s` that are not `#`, in their order.
pub open spec fn without_hash(s: Seq<char>) -> Seq<char> {
    s.filter(|c: char| c != '#')
}

/// Collects the characters of `hex` that are not `#`.
pub fn strip_hash(hex: &str) -> (digits: Vec<char>)
    ensures
        digits@ == without_hash(hex@),
{
    let mut digits: Vec<char> = Vec::new();
    assert(without_hash(hex@.take(0)) =~= Seq::<char>::empty()) by {
        reveal(Seq::filter);
    }
    for c in it: hex.chars()
        invariant
            it.seq() == hex@,
            digits@ == without_hash(hex@.take(it.index() as int)),
    {
        proof {
            let seen = hex@.take(it.index() + 1);
            assert(seen.drop_last() =~= hex@.take(it.index() as int));
            reveal(Seq::filter);
        }
        if c != '#' {
            digits.push(c);
        }
    }
    assert(hex@.take(hex@.len() as int) =~= hex@);
    digits
}

/// A three-digit shorthand written out in full: each digit doubled. Any other
/// string is left as it is.
pub open spec fn expand_shorthand(digits: Seq<char>) -> Seq<char> {
    if digits.len() == 3 {
        seq![digits[0], digits[0], digits[1], digits[1], digits[2], digits[2]]
    } else {
        digits
    }
}

/// Every character is a hexadecimal digit.
pub open spec fn all_hex_digits(digits: Seq<char>) -> bool {
    forall|i: int| 0 <= i < digits.len() ==> (#[trigger] hex_digit_value(digits[i])) is Some
}

/// The number that a string of hexadecimal digits denotes, most significant
/// digit first.
pub open spec fn hex_number(digits: Seq<char>) -> nat
    decreases digits.len(),
{
    if digits.len() == 0 {
        0
    } else {
        16 * hex_number(digits.drop_last()) + hex_digit_value(digits.last())->0
    }
}

/// The 24-bit value of a hex color string, or the reason it has none.
///
/// The `#` marks are dropped first. What is left must be three or six
/// characters long; only then do the characters themselves matter.
pub open spec fn hex_value(s: Seq<char>) -> Result<nat, HexError> {
    let digits = without_hash(s);
    if digits.len() != 3 && digits.len() != 6 {
        Err(HexError::InvalidHexLength)
    } else if !all_hex_digits(digits) {
        Err(HexError::InvalidHexDigit)
    } else {
        Ok(hex_number(expand_shorthand(digits)))
    }
}

/// Bits 16 to 23 of a color value.
pub open spec fn red(value: nat) -> u8 {
    ((value / 0x10000) % 0x100) as u8
}

/// Bits 8 to 15 of a color value.
pub open spec fn green(value: nat) -> u8 {
    ((value / 0x100) % 0x100) as u8
}

/// Bits 0 to 7 of a color value.
pub open spec fn blue(value: nat) -> u8 {
    (value % 0x100) as u8
}

/// Splits a color value into its red, green and blue channels.
pub fn channels(value: u32) -> (rgb: (u8, u8, u8))
    ensures
        rgb == (red(value as nat), green(value as nat), blue(value as nat)),
{
    let r: u32 = (value >> 16) & 255;
    let g: u32 = (value >> 8) & 255;
    let b: u32 = value & 255;
    assert(r == (value / 0x10000) % 0x100 && g == (value / 0x100) % 0x100 && b == value % 0x100)
        by (bit_vector)
        requires
            r == (value >> 16) & 255,
            g == (value >> 8) & 255,
            b == value & 255,
    ;
    (r as u8, g as u8, b as u8)
}

/// The red, green and blue channels of a hex color string.
pub open spec fn rgb_of(s: Seq<char>) -> Result<(u8, u8, u8), HexError> {
    match hex_value(s) {
        Ok(value) => Ok((red(value), green(value), blue(value))),
        Err(e) => Err(e),
    }
}

/// 16 to the power `n`.
pub open spec fn sixteen_to(n: nat) -> nat
    decreases n,
{
    if n == 0 {
        1
    } else {
        16 * sixteen_to((n - 1) as nat)
    }
}

/// Dropping the `#` marks of a string with one more character at its end.
pub proof fn lemma_without_hash_push(s: Seq<char>, c: char)
    ensures
        without_hash(s.push(c)) == if c == '#' {
            without_hash(s)
        } else {
            without_hash(s).push(c)
        },
{
    reveal(Seq::filter);
    assert(s.push(c).drop_last() =~= s);
}

/// Once the `#` marks are dropped there is none left to drop.
pub proof fn lemma_without_hash_twice(s: Seq<char>)
    ensures
        without_hash(without_hash(s)) == without_hash(s),
    decreases s.len(),
{
    if s.len() == 0 {
        reveal(Seq::filter);
    } else {
        let front = s.drop_last();
        assert(front.push(s.last()) =~= s);
        lemma_without_hash_push(front, s.last());
        lemma_without_hash_twice(front);
        if s.last() != '#' {
            lemma_without_hash_push(without_hash(front), s.last());
        }
    }
}

/// The `#` marks of a hex color string do not matter, wherever they stand:
/// `#fff` and `fff` are the same color.
pub proof fn lemma_hash_marks_ignored(s: Seq<char>)
    ensures
        hex_value(without_hash(s)) == hex_value(s),
        rgb_of(without_hash(s)) == rgb_of(s),
{
    lemma_without_hash_twice(s);
}

/// Three digits are shorthand for six, each digit written twice: `abc` and
/// `aabbcc` are the same color, and where one is rejected so is the other,
/// for the same reason.
pub proof fn lemma_shorthand_doubles(a: char, b: char, c: char)
    ensures
        hex_value(seq![a, b, c]) == hex_value(seq![a, a, b, b, c, c]),
        rgb_of(seq![a, b, c]) == rgb_of(seq![a, a, b, b, c, c]),
{
    let e = Seq::<char>::empty();
    assert(without_hash(e) =~= e) by {
        reveal(Seq::filter);
    }
    let short = seq![a, b, c];
    assert(short =~= e.push(a).push(b).push(c));
    lemma_without_hash_push(e, a);
    lemma_without_hash_push(e.push(a), b);
    lemma_without_hash_push(e.push(a).push(b), c);
    let long = seq![a, a, b, b, c, c];
    assert(long =~= e.push(a).push(a).push(b).push(b).push(c).push(c));
    lemma_without_hash_push(e.push(a), a);
    lemma_without_hash_push(e.push(a).push(a), b);
    lemma_without_hash_push(e.push(a).push(a).push(b), b);
    lemma_without_hash_push(e.push(a).push(a).push(b).push(b), c);
    lemma_without_hash_push(e.push(a).push(a).push(b).push(b).push(c), c);
    if a != '#' && b != '#' && c != '#' {
        assert(expand_shorthand(short) =~= long);
    }
}

/// A hex color value fits in 24 bits.
pub proof fn lemma_hex_value_24_bit(s: Seq<char>)
    requires
        hex_value(s) is Ok,
    ensures
        hex_value(s)->Ok_0 < 0x1000000,
{
    let digits = without_hash(s);
    let full = expand_shorthand(digits);
    lemma_hex_number_bound(full);
    reveal_with_fuel(sixteen_to, 7);
}

/// The number that six digit values denote, most significant first.
pub open spec fn six_digit_number(v0: nat, v1: nat, v2: nat, v3: nat, v4: nat, v5: nat) -> nat {
    0x100000 * v0 + 0x10000 * v1 + 0x1000 * v2 + 0x100 * v3 + 0x10 * v4 + v5
}

/// The channels of a number given by its six digit values.
proof fn lemma_channels_of_values(v0: nat, v1: nat, v2: nat, v3: nat, v4: nat, v5: nat)
    requires
        v0 < 16,
        v1 < 16,
        v2 < 16,
        v3 < 16,
        v4 < 16,
        v5 < 16,
    ensures
        red(six_digit_number(v0, v1, v2, v3, v4, v5)) == 16 * v0 + v1,
        green(six_digit_number(v0, v1, v2, v3, v4, v5)) == 16 * v2 + v3,
        blue(six_digit_number(v0, v1, v2, v3, v4, v5)) == 16 * v4 + v5,
{
    let n = six_digit_number(v0, v1, v2, v3, v4, v5) as int;
    let r = (16 * v0 + v1) as int;
    let g = (16 * v2 + v3) as int;
    let b = (16 * v4 + v5) as int;
    lemma_fundamental_div_mod_converse(n, 0x10000, r, 0x100 * g + b);
    lemma_fundamental_div_mod_converse(r, 0x100, 0, r);
    lemma_fundamental_div_mod_converse(n, 0x100, 0x100 * r + g, b);
    lemma_fundamental_div_mod_converse(0x100 * r + g, 0x100, r, g);
}

/// The number of six hexadecimal digits, by their values.
proof fn lemma_hex_number_of_six(digits: Seq<char>)
    requires
        digits.len() == 6,
    ensures
        hex_number(digits) == six_digit_number(
            hex_digit_value(digits[0])->0,
            hex_digit_value(digits[1])->0,
            hex_digit_value(digits[2])->0,
            hex_digit_value(digits[3])->0,
            hex_digit_value(digits[4])->0,
            hex_digit_value(digits[5])->0,
        ),
{
    let d5 = digits.drop_last();
    let d4 = d5.drop_last();
    let d3 = d4.drop_last();
    let d2 = d3.drop_last();
    let d1 = d2.drop_last();
    let d0 = d1.drop_last();
    assert(hex_number(d0) == 0);
    assert(hex_number(d1) == 16 * hex_number(d0) + hex_digit_value(digits[0])->0);
    assert(hex_number(d2) == 16 * hex_number(d1) + hex_digit_value(digits[1])->0);
    assert(hex_number(d3) == 16 * hex_number(d2) + hex_digit_value(digits[2])->0);
    assert(hex_number(d4) == 16 * hex_number(d3) + hex_digit_value(digits[3])->0);
    assert(hex_number(d5) == 16 * hex_number(d4) + hex_digit_value(digits[4])->0);
    assert(hex_number(digits) == 16 * hex_number(d5) + hex_digit_value(digits[5])->0);
}

/// Of six hexadecimal digits, the first two make the red channel, the next
/// two the green, the last two the blue.
pub proof fn lemma_channels_of_digits(digits: Seq<char>)
    requires
        digits.len() == 6,
        all_hex_digits(digits),
    ensures
        red(hex_number(digits)) == 16 * hex_digit_value(digits[0])->0 + hex_digit_value(
            digits[1],
        )->0,
        green(hex_number(digits)) == 16 * hex_digit_value(digits[2])->0 + hex_digit_value(
            digits[3],
        )->0,
        blue(hex_number(digits)) == 16 * hex_digit_value(digits[4])->0 + hex_digit_value(
            digits[5],
        )->0,
{
    lemma_hex_number_of_six(digits);
    lemma_channels_of_values(
        hex_digit_value(digits[0])->0,
        hex_digit_value(digits[1])->0,
        hex_digit_value(digits[2])->0,
        hex_digit_value(digits[3])->0,
        hex_digit_value(digits[4])->0,
        hex_digit_value(digits[5])->0,
    );
}

/// A string of `n` hexadecimal digits denotes a number below 16 to the `n`.
pub proof fn lemma_hex_number_bound(digits: Seq<char>)
    requires
        all_hex_digits(digits),
    ensures
        hex_number(digits) < sixteen_to(digits.len()),
    decreases digits.len(),
{
    if digits.len() > 0 {
        let front = digits.drop_last();
        lemma_hex_number_bound(front);
    }
}

} // verus!
