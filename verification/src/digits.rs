//! Decimal digit strings and the numbers they denote.

use vstd::prelude::*;
use vstd::utf8::is_ascii_chars;

verus! {

/// Whether `c` is one of the ten ASCII decimal digits.
pub open spec fn is_digit_char(c: char) -> bool {
    '0' <= c && c <= '9'
}

/// Whether every character of `s` is an ASCII decimal digit.
pub open spec fn all_digit_chars(s: Seq<char>) -> bool {
    forall|i: int| 0 <= i < s.len() ==> is_digit_char(#[trigger] s[i])
}

/// The digit values of a string of digit characters, left to right.
pub open spec fn char_digits(s: Seq<char>) -> Seq<nat> {
    Seq::new(s.len(), |i: int| (s[i] as nat - 48) as nat)
}

/// Whether `b` is the ASCII code of a decimal digit.
pub open spec fn is_digit_byte(b: u8) -> bool {
    48 <= b && b <= 57
}

/// Whether every byte of `s` is the ASCII code of a decimal digit.
pub open spec fn all_digit_bytes(s: Seq<u8>) -> bool {
    forall|i: int| 0 <= i < s.len() ==> is_digit_byte(#[trigger] s[i])
}

/// The digit values of a string of ASCII digit bytes, left to right.
pub open spec fn byte_digits(s: Seq<u8>) -> Seq<nat> {
    Seq::new(s.len(), |i: int| (s[i] as nat - 48) as nat)
}

/// The bytes of a string of ASCII characters are digits exactly where the
/// characters are, and then have the same digit values.
pub proof fn lemma_ascii_digits(s: Seq<char>, b: Seq<u8>)
    requires
        b.len() == s.len(),
        is_ascii_chars(s),
        forall|i: int| 0 <= i < s.len() ==> #[trigger] b[i] == s[i] as u8,
    ensures
        all_digit_chars(s) <==> all_digit_bytes(b),
        all_digit_chars(s) ==> byte_digits(b) == char_digits(s),
{
    if all_digit_chars(s) {
        assert forall|i: int| 0 <= i < b.len() implies is_digit_byte(#[trigger] b[i]) by {
            assert(is_digit_char(s[i]));
        }
        assert(byte_digits(b) =~= char_digits(s));
    }
    if all_digit_bytes(b) {
        assert forall|i: int| 0 <= i < s.len() implies is_digit_char(#[trigger] s[i]) by {
            assert(is_digit_byte(b[i]));
        }
    }
}

/// Whether every element of `d` is a digit value, 0 to 9.
pub open spec fn all_digits(d: Seq<nat>) -> bool {
    forall|i: int| 0 <= i < d.len() ==> #[trigger] d[i] <= 9
}

/// The number that the digit sequence `d` denotes in base ten, most
/// significant digit first. The empty sequence denotes 0.
pub open spec fn decimal_value(d: Seq<nat>) -> nat
    decreases d.len(),
{
    if d.len() == 0 {
        0
    } else {
        decimal_value(d.drop_last()) * 10 + d.last()
    }
}

/// Ten to the power `n`.
pub open spec fn pow10(n: nat) -> nat
    decreases n,
{
    if n == 0 {
        1
    } else {
        10 * pow10((n - 1) as nat)
    }
}

/// A sequence of `n` digits denotes a number below `10^n`.
pub proof fn lemma_decimal_value_bound(d: Seq<nat>)
    requires
        all_digits(d),
    ensures
        decimal_value(d) < pow10(d.len()),
    decreases d.len(),
{
    if d.len() > 0 {
        lemma_decimal_value_bound(d.drop_last());
    }
}

/// The number denoted by a prefix of `d` is at most the number denoted by `d`.
pub proof fn lemma_decimal_value_prefix(d: Seq<nat>, n: int)
    requires
        0 <= n <= d.len(),
    ensures
        decimal_value(d.take(n)) <= decimal_value(d),
    decreases d.len(),
{
    if n == d.len() {
        assert(d.take(n) =~= d);
    } else {
        lemma_decimal_value_prefix(d.drop_last(), n);
        assert(d.drop_last().take(n) =~= d.take(n));
    }
}

/// A sequence of `n` digits that starts with a zero denotes a number below
/// `10^(n-1)`.
pub proof fn lemma_leading_zero_bound(d: Seq<nat>)
    requires
        all_digits(d),
        d.len() >= 1,
        d[0] == 0,
    ensures
        decimal_value(d) < pow10((d.len() - 1) as nat),
    decreases d.len(),
{
    if d.len() == 1 {
        assert(d.drop_last().len() == 0);
        assert(decimal_value(d.drop_last()) == 0);
    } else {
        lemma_leading_zero_bound(d.drop_last());
    }
}

/// Reads a string of ASCII digit bytes as a decimal number.
///
/// Returns the number where `bytes` is non-empty, holds only digits and
/// denotes a number that fits in 64 bits, and `None` otherwise.
pub fn parse_decimal(bytes: &[u8]) -> (r: Option<u64>)
    ensures
        r.is_some() <==> (bytes@.len() > 0 && all_digit_bytes(bytes@) && decimal_value(
            byte_digits(bytes@),
        ) <= u64::MAX),
        r matches Some(v) ==> v == decimal_value(byte_digits(bytes@)),
{
    let n: usize = bytes.len();
    if n == 0 {
        return None;
    }
    let ghost d = byte_digits(bytes@);
    let mut acc: u64 = 0;
    let mut i: usize = 0;
    while i < n
        invariant
            n == bytes@.len(),
            d == byte_digits(bytes@),
            0 <= i <= n,
            all_digit_bytes(bytes@.take(i as int)),
            acc == decimal_value(d.take(i as int)),
        decreases n - i,
    {
        let b: u8 = bytes[i];
        if b < 48 || b > 57 {
            assert(!is_digit_byte(bytes@[i as int]));
            return None;
        }
        proof {
            assert(d.take(i + 1).drop_last() =~= d.take(i as int));
            assert(d.take(i + 1).last() == (b - 48) as nat);
            assert forall|k: int| 0 <= k < i + 1 implies is_digit_byte(
                #[trigger] bytes@.take(i + 1)[k],
            ) by {
                if k < i {
                    assert(bytes@.take(i as int)[k] == bytes@[k]);
                }
            }
            lemma_decimal_value_prefix(d, i + 1);
        }
        let digit: u64 = (b - 48) as u64;
        let shifted: u64 = match acc.checked_mul(10) {
            Some(v) => v,
            None => {
                return None;
            },
        };
        acc = match shifted.checked_add(digit) {
            Some(v) => v,
            None => {
                return None;
            },
        };
        i = i + 1;
    }
    proof {
        assert(d.take(n as int) =~= d);
        assert(bytes@.take(n as int) =~= bytes@);
    }
    Some(acc)
}

} // verus!
