//! Numbers as text: the decimal and hexadecimal notations that the reports
//! and the JSON-RPC payloads use, read and written.
//!
//! Reading follows the grammar of Rust's integer parsing: an optional sign,
//! then one or more digits, with no whitespace and no separators; a value
//! that does not fit the integer type is rejected.

use vstd::prelude::*;
use vstd::std_specs::iter::IteratorSpec;
use vstd::string::*;

verus! {

/// Value of `c` as a digit in base `radix`, if it is one. Letters count,
/// in either case, in base 16 only.
pub open spec fn digit_of(c: char, radix: int) -> Option<int> {
    if '0' <= c <= '9' {
        Some(c as int - '0' as int)
    } else if radix == 16 && 'a' <= c <= 'f' {
        Some(c as int - 'a' as int + 10)
    } else if radix == 16 && 'A' <= c <= 'F' {
        Some(c as int - 'A' as int + 10)
    } else {
        None
    }
}

/// The character that writes the digit `d`: `0` to `9`, then `a` to `f`.
pub open spec fn digit_char(d: int) -> char {
    if d < 10 {
        (d + '0' as int) as char
    } else {
        (d - 10 + 'a' as int) as char
    }
}

/// Every character of `s` is a digit in base `radix`.
pub open spec fn all_digits(s: Seq<char>, radix: int) -> bool {
    forall|i: int| 0 <= i < s.len() ==> (#[trigger] digit_of(s[i], radix)) is Some
}

/// `n` times the base: 16 where `radix` is 16, else 10.
pub open spec fn shift_digit(n: int, radix: int) -> int {
    if radix == 16 {
        n * 16
    } else {
        n * 10
    }
}

/// The number that the digits `s` write in base `radix` (16, else 10), most
/// significant digit first. A character that is no digit counts as 0.
pub open spec fn digits_value(s: Seq<char>, radix: int) -> int
    decreases s.len(),
{
    if s.len() == 0 {
        0
    } else {
        shift_digit(digits_value(s.drop_last(), radix), radix) + match digit_of(s.last(), radix) {
            Some(d) => d,
            None => 0,
        }
    }
}

/// The digits of `n` in base `radix` (16, else 10), most significant first,
/// without leading zeros; `0` is written as a single digit.
pub open spec fn digits_of(n: nat, radix: int) -> Seq<char>
    decreases n,
{
    if radix == 16 {
        if n < 16 {
            seq![digit_char(n as int)]
        } else {
            digits_of(n / 16, radix).push(digit_char((n % 16) as int))
        }
    } else {
        if n < 10 {
            seq![digit_char(n as int)]
        } else {
            digits_of(n / 10, radix).push(digit_char((n % 10) as int))
        }
    }
}

/// `s` without a leading `+`.
pub open spec fn without_plus(s: Seq<char>) -> Seq<char> {
    if s.len() > 0 && s[0] == '+' {
        s.skip(1)
    } else {
        s
    }
}

/// The number that the unsigned digit string `digits` writes in base
/// `radix`: there is at least one digit, nothing but digits, and the value is
/// within `u64`.
pub open spec fn read_digits(digits: Seq<char>, radix: int) -> Option<u64> {
    if digits.len() > 0 && all_digits(digits, radix) && digits_value(digits, radix) <= u64::MAX {
        Some(digits_value(digits, radix) as u64)
    } else {
        None
    }
}

/// The unsigned number that `s` writes in base `radix`: an optional `+`,
/// then at least one digit, and a value within `u64`.
pub open spec fn parse_unsigned(s: Seq<char>, radix: int) -> Option<u64> {
    read_digits(without_plus(s), radix)
}

/// `s` without its leading `0x` markers, however many there are.
pub open spec fn strip_hex_prefix(s: Seq<char>) -> Seq<char>
    decreases s.len(),
{
    if s.len() >= 2 && s[0] == '0' && s[1] == 'x' {
        strip_hex_prefix(s.skip(2))
    } else {
        s
    }
}

/// The quantity that a JSON-RPC hex string writes: `0x` markers are dropped
/// from the front, and the rest is read as an unsigned number in base 16.
pub open spec fn parse_hex_quantity(s: Seq<char>) -> Option<u64> {
    parse_unsigned(strip_hex_prefix(s), 16)
}

/// A JSON-RPC hex string for `n`: `0x`, then the lower-case digits of `n` in
/// base 16.
pub open spec fn hex_quantity(n: u64) -> Seq<char> {
    seq!['0', 'x'] + digits_of(n as nat, 16)
}

/// Decimal notation of `n`, with a leading `-` when it is negative.
pub open spec fn decimal(n: int) -> Seq<char> {
    if n < 0 {
        seq!['-'] + digits_of((-n) as nat, 10)
    } else {
        digits_of(n as nat, 10)
    }
}

/// The signed number that `s` writes in decimal: an optional `+` or `-`,
/// then at least one digit, and a value within `i64`.
pub open spec fn parse_signed(s: Seq<char>) -> Option<i64> {
    let negative = s.len() > 0 && s[0] == '-';
    let digits = if negative { s.skip(1) } else { without_plus(s) };
    let magnitude = digits_value(digits, 10);
    let value = if negative { -magnitude } else { magnitude };
    if digits.len() > 0 && all_digits(digits, 10) && i64::MIN <= value <= i64::MAX {
        Some(value as i64)
    } else {
        None
    }
}

/// A digit contributes to the value without lowering it: the value of a
/// prefix never exceeds the value of the whole.
pub proof fn lemma_digits_value_prefix(s: Seq<char>, k: int, radix: int)
    requires
        0 <= k <= s.len(),
        radix == 10 || radix == 16,
    ensures
        0 <= digits_value(s.take(k), radix) <= digits_value(s, radix),
    decreases s.len() - k,
{
    if k < s.len() {
        lemma_digits_value_prefix(s, k + 1, radix);
        assert(s.take(k + 1).drop_last() =~= s.take(k));
        lemma_digits_value_nonnegative(s.take(k), radix);
    } else {
        assert(s.take(k) =~= s);
        lemma_digits_value_nonnegative(s, radix);
    }
}

/// The value of any digit string is at least 0.
pub proof fn lemma_digits_value_nonnegative(s: Seq<char>, radix: int)
    requires
        radix == 10 || radix == 16,
    ensures
        0 <= digits_value(s, radix),
    decreases s.len(),
{
    if s.len() > 0 {
        lemma_digits_value_nonnegative(s.drop_last(), radix);
    }
}

/// Writing a number and reading the digits back gives the number: the
/// digits of `n` are all digits, there is at least one, and their value is
/// `n`.
pub proof fn lemma_digits_roundtrip(n: nat, radix: int)
    requires
        radix == 10 || radix == 16,
    ensures
        digits_of(n, radix).len() > 0,
        all_digits(digits_of(n, radix), radix),
        digits_value(digits_of(n, radix), radix) == n,
    decreases n,
{
    let s = digits_of(n, radix);
    if n < radix {
        assert(s.drop_last() =~= Seq::<char>::empty());
        assert(digits_value(s.drop_last(), radix) == 0);
        assert(digit_of(s.last(), radix) == Some(n as int));
    } else {
        let high: nat = if radix == 16 { n / 16 } else { n / 10 };
        let low: int = if radix == 16 { (n % 16) as int } else { (n % 10) as int };
        lemma_digits_roundtrip(high, radix);
        assert(s.drop_last() =~= digits_of(high, radix));
        assert(digits_value(s.drop_last(), radix) == high);
        assert(digit_of(s.last(), radix) == Some(low));
        assert forall|i: int| 0 <= i < s.len() implies (#[trigger] digit_of(s[i], radix))
            is Some by {
            if i < s.len() - 1 {
                assert(s[i] == digits_of(high, radix)[i]);
            }
        }
    }
}

/// Reading back the decimal notation of an unsigned number gives the number.
pub proof fn lemma_parse_unsigned_roundtrip(n: u64)
    ensures
        parse_unsigned(decimal(n as int), 10) == Some(n),
{
    let text = decimal(n as int);
    lemma_digits_roundtrip(n as nat, 10);
    assert(digit_of(text[0], 10) is Some);
}

/// Reading back the decimal notation of a signed number gives the number.
pub proof fn lemma_parse_signed_roundtrip(n: i64)
    ensures
        parse_signed(decimal(n as int)) == Some(n),
{
    let text = decimal(n as int);
    if n < 0 {
        let digits = digits_of((-n) as nat, 10);
        lemma_digits_roundtrip((-n) as nat, 10);
        assert(text.skip(1) =~= digits);
    } else {
        lemma_digits_roundtrip(n as nat, 10);
        assert(digit_of(text[0], 10) is Some);
    }
}

/// Reading back the hex string of a quantity gives the quantity.
pub proof fn lemma_hex_roundtrip(n: u64)
    ensures
        parse_hex_quantity(hex_quantity(n)) == Some(n),
{
    let digits = digits_of(n as nat, 16);
    let text = hex_quantity(n);
    lemma_digits_roundtrip(n as nat, 16);
    assert(text.skip(2) =~= digits);
    assert(digit_of(digits[0], 16) is Some);
    if digits.len() >= 2 {
        assert(digit_of(digits[1], 16) is Some);
    }
    assert(strip_hex_prefix(digits) == digits);
    assert(strip_hex_prefix(text) == digits);
}

/// The characters of `s`, in order.
fn to_chars(s: &str) -> (chars: Vec<char>)
    ensures
        chars@ == s@,
{
    broadcast use vstd::string::group_string_axioms;

    let mut chars: Vec<char> = Vec::new();
    let mut rest = s.chars();
    loop
        invariant_except_break
            rest.obeys_prophetic_iter_laws(),
            rest.decrease() is Some,
            chars@ + rest.remaining() =~= s@,
        ensures
            chars@ =~= s@,
        decreases rest.decrease()->0,
    {
        match rest.next() {
            Some(c) => {
                chars.push(c);
            },
            None => {
                break ;
            },
        }
    }
    chars
}

/// The value of `c` as a digit in base `radix`.
fn digit_value(c: char, radix: u32) -> (d: Option<u64>)
    requires
        radix == 10 || radix == 16,
    ensures
        d is Some <==> digit_of(c, radix as int) is Some,
        d matches Some(v) ==> digit_of(c, radix as int) == Some(v as int) && v < 16,
{
    let code: u32 = c as u32;
    if '0' <= c && c <= '9' {
        Some((code - '0' as u32) as u64)
    } else if radix == 16 && 'a' <= c && c <= 'f' {
        Some((code - 'a' as u32 + 10) as u64)
    } else if radix == 16 && 'A' <= c && c <= 'F' {
        Some((code - 'A' as u32 + 10) as u64)
    } else {
        None
    }
}

/// Reads the characters from position `start` on as the digits of an
/// unsigned number in base `radix`.
fn parse_digits(chars: &Vec<char>, start: usize, radix: u32) -> (value: Option<u64>)
    requires
        start <= chars@.len(),
        radix == 10 || radix == 16,
    ensures
        value == read_digits(chars@.skip(start as int), radix as int),
{
    let len: usize = chars.len();
    let ghost digits = chars@.skip(start as int);
    if start >= len {
        return None;
    }
    let mut acc: u64 = 0;
    let mut i: usize = start;
    while i < len
        invariant
            start <= i <= len,
            len == chars@.len(),
            digits == chars@.skip(start as int),
            radix == 10 || radix == 16,
            all_digits(digits.take(i - start), radix as int),
            acc == digits_value(digits.take(i - start), radix as int),
        decreases len - i,
    {
        let c = chars[i];
        let ghost seen = digits.take(i - start + 1);
        proof {
            assert(seen.drop_last() =~= digits.take(i - start));
            assert(seen.last() == c);
            lemma_digits_value_prefix(digits, i - start + 1, radix as int);
        }
        let digit = digit_value(c, radix);
        if digit.is_none() {
            assert(digits[i - start] == c);
            return None;
        }
        let d: u64 = digit.unwrap();
        let shifted = if radix == 16 {
            acc.checked_mul(16)
        } else {
            acc.checked_mul(10)
        };
        if shifted.is_none() {
            return None;
        }
        let next = shifted.unwrap().checked_add(d);
        if next.is_none() {
            return None;
        }
        acc = next.unwrap();
        i += 1;
        proof {
            assert forall|j: int| 0 <= j < seen.len() implies (#[trigger] digit_of(
                seen[j],
                radix as int,
            )) is Some by {
                if j < seen.len() - 1 {
                    assert(seen[j] == digits.take(i - start - 1)[j]);
                }
            }
        }
    }
    assert(digits.take(len - start) =~= digits);
    Some(acc)
}

/// Reads `s` as an unsigned decimal number.
pub fn parse_u64(s: &str) -> (value: Option<u64>)
    ensures
        value == parse_unsigned(s@, 10),
{
    let chars = to_chars(s);
    if chars.len() > 0 && chars[0] == '+' {
        parse_digits(&chars, 1, 10)
    } else {
        assert(chars@.skip(0) =~= chars@);
        parse_digits(&chars, 0, 10)
    }
}

/// Reads the hex-encoded quantity of a JSON-RPC payload, with or without its
/// `0x` marker.
pub fn parse_hex_u64(s: &str) -> (value: Option<u64>)
    ensures
        value == parse_hex_quantity(s@),
{
    let chars = to_chars(s);
    let len: usize = chars.len();
    let mut start: usize = 0;
    assert(chars@.skip(0) =~= chars@);
    while len - start >= 2 && chars[start] == '0' && chars[start + 1] == 'x'
        invariant
            start <= len,
            len == chars@.len(),
            strip_hex_prefix(chars@) == strip_hex_prefix(chars@.skip(start as int)),
        decreases len - start,
    {
        assert(chars@.skip(start as int).skip(2) =~= chars@.skip(start + 2));
        start += 2;
    }
    let ghost rest = chars@.skip(start as int);
    assert(strip_hex_prefix(rest) == rest);
    if start < len && chars[start] == '+' {
        assert(rest.skip(1) =~= chars@.skip(start + 1));
        parse_digits(&chars, start + 1, 16)
    } else {
        parse_digits(&chars, start, 16)
    }
}

/// Reads `s` as a signed decimal number.
pub fn parse_i64(s: &str) -> (value: Option<i64>)
    ensures
        value == parse_signed(s@),
{
    let chars = to_chars(s);
    let len: usize = chars.len();
    if len > 0 && chars[0] == '-' {
        proof {
            lemma_digits_value_nonnegative(chars@.skip(1), 10);
        }
        match parse_digits(&chars, 1, 10) {
            Some(magnitude) => {
                if magnitude <= 0x8000_0000_0000_0000 {
                    Some((-(magnitude as i128)) as i64)
                } else {
                    None
                }
            },
            None => None,
        }
    } else {
        let start: usize = if len > 0 && chars[0] == '+' { 1 } else { 0 };
        proof {
            assert(chars@.skip(0) =~= chars@);
            lemma_digits_value_nonnegative(chars@.skip(start as int), 10);
        }
        match parse_digits(&chars, start, 10) {
            Some(magnitude) => {
                if magnitude <= 0x7fff_ffff_ffff_ffff {
                    Some(magnitude as i64)
                } else {
                    None
                }
            },
            None => None,
        }
    }
}

/// The one-character string that writes the digit `d`.
fn digit_str(d: u64) -> (s: &'static str)
    requires
        d < 16,
    ensures
        s@ == seq![digit_char(d as int)],
{
    proof {
        reveal_strlit("0");
        reveal_strlit("1");
        reveal_strlit("2");
        reveal_strlit("3");
        reveal_strlit("4");
        reveal_strlit("5");
        reveal_strlit("6");
        reveal_strlit("7");
        reveal_strlit("8");
        reveal_strlit("9");
        reveal_strlit("a");
        reveal_strlit("b");
        reveal_strlit("c");
        reveal_strlit("d");
        reveal_strlit("e");
        reveal_strlit("f");
    }
    let s = if d == 0 {
        "0"
    } else if d == 1 {
        "1"
    } else if d == 2 {
        "2"
    } else if d == 3 {
        "3"
    } else if d == 4 {
        "4"
    } else if d == 5 {
        "5"
    } else if d == 6 {
        "6"
    } else if d == 7 {
        "7"
    } else if d == 8 {
        "8"
    } else if d == 9 {
        "9"
    } else if d == 10 {
        "a"
    } else if d == 11 {
        "b"
    } else if d == 12 {
        "c"
    } else if d == 13 {
        "d"
    } else if d == 14 {
        "e"
    } else {
        "f"
    };
    assert(s@ =~= seq![digit_char(d as int)]);
    s
}

/// Appends the digits of `n` in base `radix` to `out`.
fn push_digits(out: &mut String, n: u64, radix: u32)
    requires
        radix == 10 || radix == 16,
    ensures
        final(out)@ == old(out)@ + digits_of(n as nat, radix as int),
    decreases n,
{
    if radix == 16 {
        if n >= 16 {
            push_digits(out, n / 16, radix);
        }
        out.append(digit_str(n % 16));
    } else {
        if n >= 10 {
            push_digits(out, n / 10, radix);
        }
        out.append(digit_str(n % 10));
    }
}

/// Decimal notation of `n`.
pub fn format_u64(n: u64) -> (text: String)
    ensures
        text@ == decimal(n as int),
{
    let mut text = String::new();
    push_digits(&mut text, n, 10);
    text
}

/// Decimal notation of `n`, with a leading `-` when it is negative.
pub fn format_i64(n: i64) -> (text: String)
    ensures
        text@ == decimal(n as int),
{
    let mut text = String::new();
    if n < 0 {
        proof {
            reveal_strlit("-");
        }
        text.append("-");
        let magnitude: u64 = (-(n as i128)) as u64;
        push_digits(&mut text, magnitude, 10);
    } else {
        push_digits(&mut text, n as u64, 10);
    }
    text
}

/// The JSON-RPC hex string for `n`: `0x` and its lower-case digits in base
/// 16.
pub fn format_hex(n: u64) -> (text: String)
    ensures
        text@ == hex_quantity(n),
{
    proof {
        reveal_strlit("0x");
    }
    let mut text = String::from_str("0x");
    push_digits(&mut text, n, 16);
    text
}

} // verus!
