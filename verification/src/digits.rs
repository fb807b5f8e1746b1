//! Hexadecimal and decimal digits: the character-level building blocks of
//! the wire grammar, with executable conversions proved against their
//! specifications.

use vstd::prelude::*;
use vstd::string::StringExecFns;

verus! {

/// A lowercase hexadecimal digit.
pub open spec fn is_hex_digit(c: char) -> bool {
    ('0' <= c && c <= '9') || ('a' <= c && c <= 'f')
}

/// A decimal digit.
pub open spec fn is_dec_digit(c: char) -> bool {
    '0' <= c && c <= '9'
}

/// Numeric value of a hexadecimal digit.
pub open spec fn hex_digit_value(c: char) -> u8 {
    if '0' <= c && c <= '9' {
        (c as u8 - '0' as u8) as u8
    } else {
        (c as u8 - 'a' as u8 + 10) as u8
    }
}

/// Numeric value of a decimal digit.
pub open spec fn dec_digit_value(c: char) -> u8 {
    (c as u8 - '0' as u8) as u8
}

/// The lowercase hexadecimal digit for a value below 16.
pub open spec fn hex_char(n: u8) -> char
    recommends
        n < 16,
{
    if n == 0 { '0' } else if n == 1 { '1' } else if n == 2 { '2' } else if n == 3 { '3' }
    else if n == 4 { '4' } else if n == 5 { '5' } else if n == 6 { '6' } else if n == 7 { '7' }
    else if n == 8 { '8' } else if n == 9 { '9' } else if n == 10 { 'a' } else if n == 11 { 'b' }
    else if n == 12 { 'c' } else if n == 13 { 'd' } else if n == 14 { 'e' } else { 'f' }
}

/// The decimal digit for a value below 10.
pub open spec fn dec_char(n: u8) -> char
    recommends
        n < 10,
{
    hex_char(if n < 10 { n } else { 0 })
}

/// Printing a hexadecimal digit back from its value is the identity.
pub proof fn lemma_hex_value_char(c: char)
    requires
        is_hex_digit(c),
    ensures
        hex_digit_value(c) < 16,
        hex_char(hex_digit_value(c)) == c,
{
}

/// The value of a lowercase hexadecimal digit, or `None` for any other
/// character.
pub fn hex_digit_of_char(c: char) -> (r: Option<u8>)
    ensures
        r is Some <==> is_hex_digit(c),
        is_hex_digit(c) ==> r == Some(hex_digit_value(c)),
{
    if '0' <= c && c <= '9' {
        Some(c as u8 - '0' as u8)
    } else if 'a' <= c && c <= 'f' {
        Some(c as u8 - 'a' as u8 + 10)
    } else {
        None
    }
}

/// The value of a decimal digit, or `None` for any other character.
pub fn dec_digit_of_char(c: char) -> (r: Option<u8>)
    ensures
        r is Some <==> is_dec_digit(c),
        is_dec_digit(c) ==> r == Some(dec_digit_value(c)),
{
    if '0' <= c && c <= '9' {
        Some(c as u8 - '0' as u8)
    } else {
        None
    }
}

/// A one-character string holding the lowercase hexadecimal digit for a
/// value below 16.
pub fn hex_digit_str(n: u8) -> (r: &'static str)
    requires
        n < 16,
    ensures
        r@ == seq![hex_char(n)],
{
    proof {
        reveal_strlit("0");
        reveal_strlit("1");
        reveal_strlit("2");
        reveal_strlit("3");
        reveal_strlit("4");
        reveal_strlit("5");
        reveal_strlit("6");
        reveal_strlit("7");
        reveal_strlit("8");
        reveal_strlit("9");
        reveal_strlit("a");
        reveal_strlit("b");
        reveal_strlit("c");
        reveal_strlit("d");
        reveal_strlit("e");
        reveal_strlit("f");
    }
    let r = if n == 0 { "0" } else if n == 1 { "1" } else if n == 2 { "2" } else if n == 3 { "3" }
    else if n == 4 { "4" } else if n == 5 { "5" } else if n == 6 { "6" } else if n == 7 { "7" }
    else if n == 8 { "8" } else if n == 9 { "9" } else if n == 10 { "a" } else if n == 11 { "b" }
    else if n == 12 { "c" } else if n == 13 { "d" } else if n == 14 { "e" } else { "f" };
    proof {
        assert(r@ =~= seq![hex_char(n)]);
    }
    r
}

/// Hex digits of a byte: high nibble then low nibble, both lowercase.
pub open spec fn byte_hex(b: u8) -> Seq<char> {
    seq![hex_char(b / 16), hex_char(b % 16)]
}

/// Append the two lowercase hex digits of a byte.
pub fn append_byte_hex(s: &mut String, b: u8)
    ensures
        final(s)@ == old(s)@ + byte_hex(b),
{
    s.append(hex_digit_str(b / 16));
    s.append(hex_digit_str(b % 16));
    proof {
        assert(s@ =~= old(s)@ + byte_hex(b));
    }
}

/// Decimal representation of a non-negative integer, most significant digit
/// first, without leading zeros (a single `'0'` for zero).
pub open spec fn dec_rep(n: int) -> Seq<char>
    recommends
        n >= 0,
    decreases n,
{
    if n < 10 {
        seq![dec_char((if 0 <= n { n % 10 } else { 0 }) as u8)]
    } else {
        dec_rep(n / 10) + seq![dec_char((n % 10) as u8)]
    }
}

/// The decimal representation of a 32-bit value.
pub fn u32_to_dec(x: u32) -> (r: String)
    ensures
        r@ == dec_rep(x as int),
    decreases x,
{
    if x < 10 {
        let s = hex_digit_str(x as u8);
        String::from_str(s)
    } else {
        let mut s = u32_to_dec(x / 10);
        s.append(hex_digit_str((x % 10) as u8));
        s
    }
}

/// Value of a digit string, most significant digit first.
pub open spec fn dec_val(s: Seq<char>) -> int
    decreases s.len(),
{
    if s.len() == 0 {
        0
    } else {
        dec_val(s.drop_last()) * 10 + dec_digit_value(s.last())
    }
}

/// What parsing an unsigned 32-bit decimal number returns: the token must be
/// non-empty, all digits, and its value must fit.
pub open spec fn spec_parse_u32(s: Seq<char>) -> Option<u32> {
    if s.len() > 0 && (forall|i: int| 0 <= i < s.len() ==> is_dec_digit(s[i])) && dec_val(s)
        <= u32::MAX {
        Some(dec_val(s) as u32)
    } else {
        None
    }
}

/// A longer digit string never has a smaller value.
proof fn lemma_dec_val_monotone(s: Seq<char>, i: int)
    requires
        0 <= i <= s.len(),
    ensures
        dec_val(s.take(i)) <= dec_val(s),
    decreases s.len() - i,
{
    if i < s.len() {
        lemma_dec_val_monotone(s, i + 1);
        lemma_dec_val_nonneg(s.take(i));
        assert(s.take(i + 1).drop_last() =~= s.take(i));
        assert(dec_val(s.take(i + 1)) == dec_val(s.take(i)) * 10 + dec_digit_value(s.take(i + 1).last()));
        assert(dec_val(s.take(i)) * 10 >= dec_val(s.take(i))) by (nonlinear_arith)
            requires dec_val(s.take(i)) >= 0;
    } else {
        assert(s.take(i) =~= s);
    }
}

/// Every digit string has a non-negative value.
proof fn lemma_dec_val_nonneg(s: Seq<char>)
    ensures
        dec_val(s) >= 0,
    decreases s.len(),
{
    if s.len() > 0 {
        lemma_dec_val_nonneg(s.drop_last());
    }
}

/// Parse an unsigned 32-bit decimal number, as the coordinate grammar uses
/// it: digits only, value within range.
pub fn parse_u32(s: &str) -> (r: Option<u32>)
    ensures
        r == spec_parse_u32(s@),
{
    let n = s.unicode_len();
    if n == 0 {
        return None;
    }
    let mut acc: u32 = 0;
    let mut i: usize = 0;
    while i < n
        invariant
            0 < n == s@.len(),
            0 <= i <= n,
            forall|j: int| 0 <= j < i ==> is_dec_digit(s@[j]),
            acc == dec_val(s@.take(i as int)),
        decreases n - i,
    {
        let c = s.get_char(i);
        let d = match dec_digit_of_char(c) {
            Some(d) => d,
            None => {
                return None;
            },
        };
        proof {
            lemma_dec_val_nonneg(s@.take(i as int));
        }
        if acc > (u32::MAX - d as u32) / 10 {
            proof {
                assert(dec_val(s@.take(i + 1)) > u32::MAX) by {
                    assert(s@.take(i + 1).drop_last() =~= s@.take(i as int));
                    assert(dec_val(s@.take(i + 1)) == acc * 10 + d);
                    assert(acc >= (u32::MAX - d) / 10 + 1);
                    assert(acc * 10 >= ((u32::MAX - d) / 10 + 1) * 10) by (nonlinear_arith)
                        requires acc >= (u32::MAX - d) / 10 + 1;
                    assert(((u32::MAX - d) / 10 + 1) * 10 + d > u32::MAX);
                }
                lemma_dec_val_monotone(s@, i + 1);
            }
            return None;
        }
        assert(acc * 10 + d <= u32::MAX) by (nonlinear_arith)
            requires acc <= (u32::MAX - d as u32) / 10 && d <= 9;
        acc = acc * 10 + d as u32;
        i = i + 1;
        proof {
            assert(s@.take(i as int).drop_last() =~= s@.take(i - 1));
        }
    }
    proof {
        assert(s@.take(n as int) =~= s@);
    }
    Some(acc)
}

} // verus!
