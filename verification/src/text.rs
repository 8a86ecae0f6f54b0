//! Numbers as text: decimal and hexadecimal digits in both directions.

use vstd::prelude::*;
use vstd::string::*;
use vstd::utf8::*;

verus! {

/// Whether `c` is one of `0`..`9`, `a`..`f`, `A`..`F`.
pub open spec fn is_hex_digit(c: char) -> bool {
    ('0' <= c <= '9') || ('a' <= c <= 'f') || ('A' <= c <= 'F')
}

/// The number a hexadecimal digit stands for; 0 for any other character.
pub open spec fn digit_value(c: char) -> nat {
    if '0' <= c <= '9' {
        (c as nat - '0' as nat) as nat
    } else if 'a' <= c <= 'f' {
        (c as nat - 'a' as nat + 10) as nat
    } else if 'A' <= c <= 'F' {
        (c as nat - 'A' as nat + 10) as nat
    } else {
        0
    }
}

/// Whether `c` is a digit of the given radix (at most 16).
pub open spec fn is_digit(c: char, radix: nat) -> bool {
    is_hex_digit(c) && digit_value(c) < radix
}

/// Whether every character of `s` is a digit of the given radix.
pub open spec fn all_digits(s: Seq<char>, radix: nat) -> bool {
    forall|i: int| 0 <= i < s.len() ==> is_digit(#[trigger] s[i], radix)
}

/// The number that the digits `s` denote in the given radix, most
/// significant digit first.
pub open spec fn radix_value(s: Seq<char>, radix: nat) -> nat
    decreases s.len(),
{
    if s.len() == 0 {
        0
    } else {
        radix_value(s.drop_last(), radix) * radix + digit_value(s.last())
    }
}

/// Whether `s` starts with `0x` or `0X`.
pub open spec fn has_hex_prefix(s: Seq<char>) -> bool {
    s.len() >= 2 && s[0] == '0' && (s[1] == 'x' || s[1] == 'X')
}

/// The radix that a numeral is written in: 16 after `0x` or `0X`, else 10.
pub open spec fn numeral_radix(s: Seq<char>) -> nat {
    if has_hex_prefix(s) {
        16
    } else {
        10
    }
}

/// The digits of a numeral: what follows `0x`, `0X` or one leading `+`.
pub open spec fn numeral_digits(s: Seq<char>) -> Seq<char> {
    if has_hex_prefix(s) {
        s.skip(2)
    } else if s.len() > 0 && s[0] == '+' {
        s.skip(1)
    } else {
        s
    }
}

/// Whether `s` is a numeral: hexadecimal digits after `0x`, otherwise
/// decimal digits, which one `+` may precede; at least one digit.
pub open spec fn is_numeral(s: Seq<char>) -> bool {
    numeral_digits(s).len() > 0 && all_digits(numeral_digits(s), numeral_radix(s))
}

/// The number that a numeral denotes.
pub open spec fn numeral_value(s: Seq<char>) -> nat {
    radix_value(numeral_digits(s), numeral_radix(s))
}

/// The height that a text denotes, if it is a numeral that fits 64 bits.
pub open spec fn height_of_text(s: Seq<char>) -> Option<u64> {
    if is_numeral(s) && numeral_value(s) <= u64::MAX {
        Some(numeral_value(s) as u64)
    } else {
        None
    }
}

/// The lower-case digit for a number below 16.
pub open spec fn digit_char(d: nat) -> char {
    if d < 10 {
        (d + '0' as nat) as char
    } else {
        (d - 10 + 'a' as nat) as char
    }
}

/// The decimal digits of `n`, without leading zeros.
pub open spec fn decimal_digits(n: nat) -> Seq<char>
    decreases n,
{
    if n < 10 {
        seq![digit_char(n)]
    } else {
        decimal_digits(n / 10).push(digit_char(n % 10))
    }
}

/// Two lower-case hexadecimal digits for each byte, in order.
pub open spec fn hex_digits(bytes: Seq<u8>) -> Seq<char>
    decreases bytes.len(),
{
    if bytes.len() == 0 {
        Seq::empty()
    } else {
        hex_digits(bytes.drop_last()).push(digit_char(bytes.last() as nat / 16)).push(
            digit_char(bytes.last() as nat % 16),
        )
    }
}

/// A value grows with each digit, so a prefix never denotes more.
pub proof fn radix_value_prefix_le(s: Seq<char>, radix: nat, k: int)
    requires
        0 <= k <= s.len(),
        radix >= 1,
    ensures
        radix_value(s.take(k), radix) <= radix_value(s, radix),
    decreases s.len() - k,
{
    if k == s.len() {
        assert(s.take(k) =~= s);
    } else {
        radix_value_prefix_le(s, radix, k + 1);
        let t = s.take(k + 1);
        assert(t.drop_last() =~= s.take(k));
        assert(radix_value(t, radix) == radix_value(s.take(k), radix) * radix + digit_value(
            t.last(),
        ));
        assert(radix_value(s.take(k), radix) * radix >= radix_value(s.take(k), radix))
            by (nonlinear_arith)
            requires
                radix >= 1,
        ;
    }
}

/// The one-character text of a digit below 16.
fn digit_str(d: u8) -> (r: &'static str)
    requires
        d < 16,
    ensures
        r@ == seq![digit_char(d as nat)],
{
    proof {
        reveal_strlit("0");
        reveal_strlit("1");
        reveal_strlit("2");
        reveal_strlit("3");
        reveal_strlit("4");
        reveal_strlit("5");
        reveal_strlit("6");
        reveal_strlit("7");
        reveal_strlit("8");
        reveal_strlit("9");
        reveal_strlit("a");
        reveal_strlit("b");
        reveal_strlit("c");
        reveal_strlit("d");
        reveal_strlit("e");
        reveal_strlit("f");
    }
    let r = match d {
        0 => "0",
        1 => "1",
        2 => "2",
        3 => "3",
        4 => "4",
        5 => "5",
        6 => "6",
        7 => "7",
        8 => "8",
        9 => "9",
        10 => "a",
        11 => "b",
        12 => "c",
        13 => "d",
        14 => "e",
        _ => "f",
    };
    assert(r@ =~= seq![digit_char(d as nat)]);
    r
}

/// Writes `n` in decimal, as `u64::to_string` does.
pub fn decimal_text(n: u64) -> (s: String)
    ensures
        s@ == decimal_digits(n as nat),
    decreases n,
{
    if n < 10 {
        let s = String::from_str(digit_str(n as u8));
        s
    } else {
        let mut s = decimal_text(n / 10);
        s.append(digit_str((n % 10) as u8));
        assert(s@ =~= decimal_digits(n as nat));
        s
    }
}

/// Writes each byte as two lower-case hexadecimal digits.
pub fn hex_text(bytes: &[u8]) -> (s: String)
    ensures
        s@ == hex_digits(bytes@),
{
    let mut s = String::new();
    let mut i: usize = 0;
    while i < bytes.len()
        invariant
            i <= bytes.len(),
            s@ == hex_digits(bytes@.take(i as int)),
        decreases bytes.len() - i,
    {
        let b = bytes[i];
        s.append(digit_str(b / 16));
        s.append(digit_str(b % 16));
        proof {
            let t = bytes@.take(i + 1);
            assert(t.drop_last() =~= bytes@.take(i as int));
            assert(t.last() == b);
            assert(s@ =~= hex_digits(t));
        }
        i += 1;
    }
    assert(bytes@.take(i as int) =~= bytes@);
    s
}

/// Whether `values` holds the value of each digit of `digits`, in order.
pub open spec fn digit_values(values: Seq<u8>, digits: Seq<char>) -> bool {
    &&& values.len() == digits.len()
    &&& forall|i: int| 0 <= i < values.len() ==> (#[trigger] values[i]) as nat == digit_value(digits[i])
}

/// Whether `bytes` holds the ASCII characters `chars`, one byte each.
spec fn ascii_image(bytes: Seq<u8>, chars: Seq<char>) -> bool {
    &&& chars.len() == bytes.len()
    &&& forall|i: int|
        0 <= i < bytes.len() ==> (#[trigger] bytes[i]) < 128 && bytes[i] as char == chars[i]
}

/// The value of one ASCII byte as a digit of the radix, if it is one.
fn digit_of_byte(b: u8, radix: u8) -> (r: Option<u8>)
    requires
        b < 128,
        radix == 10 || radix == 16,
    ensures
        r == if is_digit(b as char, radix as nat) {
            Some(digit_value(b as char) as u8)
        } else {
            None::<u8>
        },
{
    let v: u8 = if b >= 48 && b <= 57 {
        b - 48
    } else if b >= 97 && b <= 102 {
        b - 97 + 10
    } else if b >= 65 && b <= 70 {
        b - 65 + 10
    } else {
        return None;
    };
    if v < radix {
        Some(v)
    } else {
        None
    }
}

/// Splits a numeral into its radix and the values of its digits, most
/// significant first. `None` where the text is no numeral.
pub fn scan_numeral(s: &str) -> (r: Option<(u8, Vec<u8>)>)
    ensures
        r is Some <==> is_numeral(s@),
        r matches Some((radix, values)) ==> radix as nat == numeral_radix(s@) && digit_values(
            values@,
            numeral_digits(s@),
        ),
{
    let ghost digits = numeral_digits(s@);
    if !s.is_ascii() {
        proof {
            let i = choose|i: int| 0 <= i < s@.len() && !('\0' <= #[trigger] s@[i] <= '\u{7f}');
            let c = s@[i];
            assert(!is_hex_digit(c) && c != '+' && c != 'x' && c != 'X' && c != '0');
            if has_hex_prefix(s@) {
                assert(i >= 2);
                assert(digits[i - 2] == c);
            } else if s@.len() > 0 && s@[0] == '+' {
                assert(digits[i - 1] == c);
            } else {
                assert(digits[i] == c);
            }
        }
        return None;
    }
    let bytes = s.as_bytes();
    proof {
        is_ascii_chars_encode_utf8(s@);
        assert forall|i: int| 0 <= i < bytes@.len() implies (#[trigger] bytes@[i]) < 128
            && bytes@[i] as char == s@[i] by {
            assert(s@[i] as u8 == bytes@[i]);
        }
        assert(ascii_image(bytes@, s@));
    }
    let n = bytes.len();
    let radix: u8 = if n >= 2 && bytes[0] == 48 && (bytes[1] == 120 || bytes[1] == 88) {
        16
    } else {
        10
    };
    let start: usize = if radix == 16 {
        2
    } else if n >= 1 && bytes[0] == 43 {
        1
    } else {
        0
    };
    assert(digits =~= s@.skip(start as int));
    assert(radix as nat == numeral_radix(s@));
    if start == n {
        return None;
    }
    let mut values: Vec<u8> = Vec::new();
    let mut i: usize = start;
    let mut ok = true;
    let ghost mut bad: int = 0;
    while ok && i < n
        invariant
            radix == 10 || radix == 16,
            start <= i <= n,
            n == bytes.len(),
            ascii_image(bytes@, s@),
            digits == s@.skip(start as int),
            ok ==> all_digits(digits.take(i - start), radix as nat),
            ok ==> digit_values(values@, digits.take(i - start)),
            !ok ==> 0 <= bad < digits.len() && !is_digit(digits[bad], radix as nat),
        decreases n - i + if ok { 1int } else { 0int },
    {
        proof {
            assert(digits[i - start] == s@[i as int]);
        }
        match digit_of_byte(bytes[i], radix) {
            None => {
                ok = false;
                proof {
                    bad = i - start;
                }
            },
            Some(d) => {
                values.push(d);
                proof {
                    let t = digits.take(i - start + 1);
                    assert forall|j: int| 0 <= j < t.len() implies is_digit(
                        #[trigger] t[j],
                        radix as nat,
                    ) by {
                        if j < i - start {
                            assert(t[j] == digits.take(i - start)[j]);
                        }
                    }
                    assert forall|j: int| 0 <= j < values@.len() implies (#[trigger] values@[j])
                        as nat == digit_value(t[j]) by {
                        if j < i - start {
                            assert(t[j] == digits.take(i - start)[j]);
                        }
                    }
                }
                i += 1;
            },
        }
    }
    if !ok {
        return None;
    }
    proof {
        assert(digits.take(i - start) =~= digits);
    }
    Some((radix, values))
}

/// Reads a height: hexadecimal after `0x` or `0X`, otherwise decimal with an
/// optional leading `+`. `None` where the text is no such number or the
/// number does not fit 64 bits.
pub fn parse_height(s: &str) -> (r: Option<u64>)
    ensures
        r == height_of_text(s@),
{
    let (radix, values) = match scan_numeral(s) {
        None => {
            return None;
        },
        Some(parts) => parts,
    };
    let ghost digits = numeral_digits(s@);
    let mut value: u64 = 0;
    let mut i: usize = 0;
    while i < values.len()
        invariant
            radix as nat == numeral_radix(s@),
            i <= values.len(),
            digits == numeral_digits(s@),
            digit_values(values@, digits),
            value == radix_value(digits.take(i as int), radix as nat),
        decreases values.len() - i,
    {
        let ghost t = digits.take(i + 1);
        proof {
            assert(t.drop_last() =~= digits.take(i as int));
            assert(t.last() == digits[i as int]);
        }
        let next = match value.checked_mul(radix as u64) {
            None => None,
            Some(m) => m.checked_add(values[i] as u64),
        };
        match next {
            None => {
                proof {
                    assert(radix_value(t, radix as nat) > u64::MAX);
                    radix_value_prefix_le(digits, radix as nat, i + 1);
                }
                return None;
            },
            Some(v) => {
                value = v;
            },
        }
        i += 1;
    }
    proof {
        assert(digits.take(i as int) =~= digits);
    }
    Some(value)
}

/// Every digit that `decimal_digits` writes is a decimal digit, and the
/// digits denote the number they were written for.
pub proof fn decimal_digits_denote(n: nat)
    ensures
        decimal_digits(n).len() > 0,
        all_digits(decimal_digits(n), 10),
        radix_value(decimal_digits(n), 10) == n,
    decreases n,
{
    if n < 10 {
        let s = decimal_digits(n);
        assert(s.drop_last() =~= Seq::<char>::empty());
        assert(radix_value(s.drop_last(), 10) == 0);
    } else {
        decimal_digits_denote(n / 10);
        let s = decimal_digits(n);
        assert(s.drop_last() =~= decimal_digits(n / 10));
        assert(s.last() == digit_char(n % 10));
    }
}

/// Reading back the decimal text of a height gives that height.
pub proof fn decimal_round_trip(n: u64)
    ensures
        height_of_text(decimal_digits(n as nat)) == Some(n),
{
    let s = decimal_digits(n as nat);
    decimal_digits_denote(n as nat);
    assert(is_digit(s[0], 10));
    if s.len() >= 2 {
        assert(is_digit(s[1], 10));
    }
    assert(!has_hex_prefix(s));
    assert(s[0] != '+');
}

} // verus!
