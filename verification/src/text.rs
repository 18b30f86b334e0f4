//! Verified rendering and parsing of integers as decimal and as
//! fixed-width lowercase hexadecimal text.

use vstd::prelude::*;
use vstd::string::StringExecFns;
use vstd::string::StrSliceExecFns;
use vstd::arithmetic::power::pow;
use vstd::arithmetic::power::lemma_pow0;
use vstd::arithmetic::power::lemma_pow1;
use vstd::arithmetic::power::lemma_pow_adds;
use vstd::arithmetic::power::lemma_pow_increases;
use vstd::arithmetic::div_mod::lemma_fundamental_div_mod;

verus! {

/// The character for one digit value below 16 (lowercase beyond 9).
pub open spec fn digit_char(d: int) -> char {
    if d == 0 { '0' }
    else if d == 1 { '1' }
    else if d == 2 { '2' }
    else if d == 3 { '3' }
    else if d == 4 { '4' }
    else if d == 5 { '5' }
    else if d == 6 { '6' }
    else if d == 7 { '7' }
    else if d == 8 { '8' }
    else if d == 9 { '9' }
    else if d == 10 { 'a' }
    else if d == 11 { 'b' }
    else if d == 12 { 'c' }
    else if d == 13 { 'd' }
    else if d == 14 { 'e' }
    else { 'f' }
}

/// The value `v` written with exactly `n` hexadecimal digits,
/// most significant first (zero-padded on the left).
pub open spec fn hex_str(v: int, n: nat) -> Seq<char>
    decreases n,
{
    if n == 0 {
        Seq::empty()
    } else {
        hex_str(v / 16, (n - 1) as nat).push(digit_char(v % 16))
    }
}

/// The value `v` written in decimal, without leading zeros
/// (a single zero digit for zero).
pub open spec fn dec_str(v: nat) -> Seq<char>
    decreases v,
{
    if v < 10 {
        seq![digit_char(v as int)]
    } else {
        dec_str(v / 10).push(digit_char((v % 10) as int))
    }
}

/// Whether `c` is a lowercase hexadecimal digit.
pub open spec fn is_hex_digit(c: char) -> bool {
    ('0' as int <= c as int && c as int <= '9' as int)
    || ('a' as int <= c as int && c as int <= 'f' as int)
}

/// The value of one hexadecimal digit character.
pub open spec fn hex_val(c: char) -> int {
    if c as int <= '9' as int {
        c as int - '0' as int
    } else {
        c as int - 'a' as int + 10
    }
}

/// Whether every character of `s` is a lowercase hexadecimal digit.
pub open spec fn all_hex_digits(s: Seq<char>) -> bool {
    forall|i: int| 0 <= i < s.len() ==> is_hex_digit(#[trigger] s[i])
}

/// The numeric value of a sequence of hexadecimal digits,
/// most significant first.
pub open spec fn hex_value(s: Seq<char>) -> int
    decreases s.len(),
{
    if s.len() == 0 {
        0
    } else {
        hex_value(s.drop_last()) * 16 + hex_val(s.last())
    }
}

/// Reading back the digit written for a value below 16 recovers the value.
proof fn lemma_digit_char_round_trip(d: int)
    requires
        0 <= d < 16,
    ensures
        is_hex_digit(digit_char(d)),
        hex_val(digit_char(d)) == d,
{
}

/// A sequence of hexadecimal digits denotes a value below 16^len.
pub proof fn lemma_hex_value_bound(s: Seq<char>)
    requires
        all_hex_digits(s),
    ensures
        0 <= hex_value(s) < pow(16, s.len()),
    decreases s.len(),
{
    if s.len() == 0 {
        lemma_pow0(16);
    } else {
        let prefix = s.drop_last();
        assert(all_hex_digits(prefix));
        lemma_hex_value_bound(prefix);
        let p = pow(16, prefix.len());
        assert(is_hex_digit(s.last()));
        assert(0 <= hex_val(s.last()) < 16);
        assert(hex_value(prefix) * 16 + hex_val(s.last()) < p * 16) by (nonlinear_arith)
            requires
                hex_value(prefix) < p,
                hex_val(s.last()) < 16,
        ;
        assert(0 <= hex_value(prefix) * 16) by (nonlinear_arith)
            requires
                0 <= hex_value(prefix),
        ;
        assert(pow(16, s.len()) == p * 16) by {
            assert(s.len() == prefix.len() + 1);
            lemma_pow1(16);
            lemma_pow_adds(16, prefix.len(), 1);
        }
    }
}

/// Writing a value below 16^n with n hexadecimal digits and reading
/// the digits back recovers the value exactly.
pub proof fn lemma_hex_round_trip(v: int, n: nat)
    requires
        0 <= v < pow(16, n),
    ensures
        hex_str(v, n).len() == n,
        all_hex_digits(hex_str(v, n)),
        hex_value(hex_str(v, n)) == v,
    decreases n,
{
    if n == 0 {
        lemma_pow0(16);
    } else {
        let p = pow(16, (n - 1) as nat);
        assert(pow(16, n) == 16 * p) by {
            lemma_pow1(16);
            lemma_pow_adds(16, (n - 1) as nat, 1);
        }
        assert(v / 16 < p && 0 <= v / 16) by (nonlinear_arith)
            requires
                0 <= v < 16 * p,
        ;
        lemma_hex_round_trip(v / 16, (n - 1) as nat);
        let s = hex_str(v, n);
        let prefix = hex_str(v / 16, (n - 1) as nat);
        assert(s == prefix.push(digit_char(v % 16)));
        assert(s.drop_last() =~= prefix);
        assert(s.last() == digit_char(v % 16));
        lemma_digit_char_round_trip(v % 16);
        assert(forall|i: int| 0 <= i < s.len() ==> is_hex_digit(#[trigger] s[i])) by {
            assert(forall|i: int| 0 <= i < prefix.len() ==> s[i] == #[trigger] prefix[i]);
        }
        lemma_fundamental_div_mod(v, 16);
        assert(hex_value(s) == hex_value(prefix) * 16 + hex_val(s.last()));
        assert(hex_value(s) == v);
    }
}

/// Any 128-bit value fits in 32 hexadecimal digits, and its rendering
/// reads back to the value exactly.
pub proof fn lemma_u128_hex_round_trip(v: u128)
    ensures
        hex_str(v as int, 32).len() == 32,
        all_hex_digits(hex_str(v as int, 32)),
        hex_value(hex_str(v as int, 32)) == v as int,
{
    lemma_pow16_values();
    lemma_hex_round_trip(v as int, 32);
}

/// The powers of 16 that bound 31- and 32-digit hexadecimal values.
proof fn lemma_pow16_values()
    ensures
        pow(16, 31) == 0x10000000000000000000000000000000,
        pow(16, 32) == 0x100000000000000000000000000000000,
{
    reveal_with_fuel(pow, 33);
}

/// The characters denoted by a sequence of ASCII byte values.
pub open spec fn chars_of_bytes(s: Seq<u8>) -> Seq<char> {
    s.map_values(|b: u8| b as char)
}

/// Relies on `String::from_utf8`: bytes below 0x80 are valid UTF-8 and
/// decode to exactly the characters with those code points.
#[verifier::external_body]
pub(crate) fn ascii_to_string(bytes: Vec<u8>) -> (r: String)
    requires
        forall|i: int| 0 <= i < bytes@.len() ==> bytes@[i] < 128,
    ensures
        r@ == chars_of_bytes(bytes@),
{
    match String::from_utf8(bytes) {
        Ok(s) => s,
        Err(_) => String::new(),
    }
}

/// Pads `s` on the right with spaces to the requested field width; a
/// string already at least that wide is returned unchanged.
pub fn pad_right(s: String, width: usize) -> (r: String)
    ensures
        s@.len() >= width ==> r@ == s@,
        s@.len() < width ==> r@ == s@ + Seq::new((width - s@.len()) as nat, |i: int| ' '),
{
    let ghost base = s@;
    let mut out = s;
    let mut n = out.as_str().unicode_len();
    if n >= width {
        return out;
    }
    proof {
        assert(base + Seq::new(0, |i: int| ' ') =~= base);
    }
    while n < width
        invariant
            n == out@.len(),
            n <= width,
            base.len() <= n,
            out@ == base + Seq::new((n - base.len()) as nat, |i: int| ' '),
        decreases width - n,
    {
        out.append(" ");
        n = n + 1;
        proof {
            reveal_strlit(" ");
            assert(out@ =~= base + Seq::new((n - base.len()) as nat, |i: int| ' '));
        }
    }
    out
}

/// The byte of the ASCII character for one digit value below 16.
fn digit_byte(d: u8) -> (b: u8)
    requires
        d < 16,
    ensures
        b < 128,
        b as char == digit_char(d as int),
{
    if d < 10 {
        48 + d
    } else {
        87 + d
    }
}

/// Renders `v` as exactly 32 lowercase hexadecimal digits, zero-padded.
pub fn format_hex_u128(v: u128) -> (r: String)
    ensures
        r@ == hex_str(v as int, 32),
        r@.len() == 32,
        all_hex_digits(r@),
        hex_value(r@) == v as int,
{
    let mut digits: Vec<u8> = Vec::new();
    let mut x = v;
    let mut k: usize = 0;
    while k < 32
        invariant
            k <= 32,
            digits@.len() == k,
            forall|i: int| 0 <= i < k ==> digits@[i] < 128,
            hex_str(x as int, (32 - k) as nat) + chars_of_bytes(digits@)
                == hex_str(v as int, 32),
        decreases 32 - k,
    {
        let d = (x % 16) as u8;
        let b = digit_byte(d);
        let ghost old_digits = digits@;
        let ghost old_x = x as int;
        digits.insert(0, b);
        x = x / 16;
        k = k + 1;
        proof {
            assert(digits@ =~= seq![b] + old_digits);
            assert(hex_str(old_x, (33 - k) as nat)
                == hex_str(old_x / 16, (32 - k) as nat).push(digit_char(old_x % 16)));
            assert(chars_of_bytes(seq![b] + old_digits)
                =~= seq![b as char] + chars_of_bytes(old_digits));
            assert(hex_str(old_x / 16, (32 - k) as nat) + chars_of_bytes(digits@)
                =~= hex_str(old_x, (33 - k) as nat) + chars_of_bytes(old_digits));
        }
    }
    proof {
        assert(hex_str(x as int, 0) + chars_of_bytes(digits@) =~= chars_of_bytes(digits@));
        lemma_pow16_values();
        lemma_hex_round_trip(v as int, 32);
    }
    ascii_to_string(digits)
}

/// The numeric value of one lowercase hexadecimal digit character,
/// or nothing for any other character.
fn hex_digit_value(c: char) -> (r: Option<u8>)
    ensures
        is_hex_digit(c) ==> r == Some(hex_val(c) as u8) && hex_val(c) < 16,
        !is_hex_digit(c) ==> r is None,
{
    let x = c as u32;
    if 48 <= x && x <= 57 {
        Some((x - 48) as u8)
    } else if 97 <= x && x <= 102 {
        Some((x - 87) as u8)
    } else {
        None
    }
}

/// Parses exactly 32 lowercase hexadecimal digits into the value they
/// denote; any other input (wrong length, uppercase, non-hex character)
/// yields nothing.
pub fn parse_hex_u128(s: &str) -> (r: Option<u128>)
    ensures
        (s@.len() == 32 && all_hex_digits(s@)) <==> r is Some,
        r is Some ==> r->Some_0 as int == hex_value(s@),
{
    let n = s.unicode_len();
    if n != 32 {
        proof {
            assert(!(s@.len() == 32));
        }
        return None;
    }
    let mut acc: u128 = 0;
    let mut i: usize = 0;
    while i < 32
        invariant
            i <= 32,
            s@.len() == 32,
            all_hex_digits(s@.subrange(0, i as int)),
            acc as int == hex_value(s@.subrange(0, i as int)),
        decreases 32 - i,
    {
        let c = s.get_char(i);
        let ghost prefix = s@.subrange(0, i as int);
        match hex_digit_value(c) {
            Some(d) => {
                proof {
                    lemma_hex_value_bound(prefix);
                    lemma_pow_increases(16, prefix.len(), 31);
                    lemma_pow16_values();
                    assert(acc * 16 + d < 0x100000000000000000000000000000000) by (nonlinear_arith)
                        requires
                            acc < 0x10000000000000000000000000000000,
                            d < 16,
                    ;
                }
                acc = acc * 16 + (d as u128);
                i = i + 1;
                proof {
                    let prefix2 = s@.subrange(0, i as int);
                    assert(prefix2.drop_last() =~= prefix);
                    assert(prefix2.last() == c);
                    assert(hex_value(prefix2) == hex_value(prefix) * 16 + hex_val(c));
                }
            },
            None => {
                proof {
                    assert(!is_hex_digit(s@[i as int]));
                }
                return None;
            },
        }
    }
    proof {
        assert(s@.subrange(0, 32) =~= s@);
    }
    Some(acc)
}

/// The digits of `v` in decimal for positive `v`; empty for zero.
spec fn dec_str_pos(v: nat) -> Seq<char>
    decreases v,
{
    if v == 0 {
        Seq::empty()
    } else {
        dec_str_pos(v / 10).push(digit_char((v % 10) as int))
    }
}

/// For positive values the two decimal renderings agree.
proof fn lemma_dec_str_pos(v: nat)
    requires
        v > 0,
    ensures
        dec_str(v) == dec_str_pos(v),
    decreases v,
{
    if v < 10 {
        assert(dec_str_pos(0) =~= Seq::<char>::empty());
        assert(dec_str_pos(v) =~= seq![digit_char(v as int)]);
    } else {
        lemma_dec_str_pos(v / 10);
    }
}

/// Renders `v` in decimal, without leading zeros.
pub fn format_dec_u64(v: u64) -> (r: String)
    ensures
        r@ == dec_str(v as nat),
{
    let mut digits: Vec<u8> = Vec::new();
    if v == 0 {
        digits.push(48);
        proof {
            assert(chars_of_bytes(digits@) =~= seq![digit_char(0)]);
            assert(dec_str(0) =~= seq![digit_char(0)]);
        }
        return ascii_to_string(digits);
    }
    let mut x = v;
    while x > 0
        invariant
            dec_str_pos(v as nat) == dec_str_pos(x as nat) + chars_of_bytes(digits@),
            forall|i: int| 0 <= i < digits@.len() ==> digits@[i] < 128,
        decreases x,
    {
        let d = (x % 10) as u8;
        let b = digit_byte(d);
        let ghost old_digits = digits@;
        let ghost old_x = x as nat;
        digits.insert(0, b);
        x = x / 10;
        proof {
            assert(digits@ =~= seq![b] + old_digits);
            assert(chars_of_bytes(seq![b] + old_digits)
                =~= seq![b as char] + chars_of_bytes(old_digits));
            assert(dec_str_pos(old_x)
                == dec_str_pos(old_x / 10).push(digit_char((old_x % 10) as int)));
            assert(dec_str_pos(old_x / 10) + chars_of_bytes(digits@)
                =~= dec_str_pos(old_x) + chars_of_bytes(old_digits));
        }
    }
    proof {
        assert(dec_str_pos(0) + chars_of_bytes(digits@) =~= chars_of_bytes(digits@));
        lemma_dec_str_pos(v as nat);
    }
    ascii_to_string(digits)
}

} // verus!
