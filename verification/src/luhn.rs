//! The Luhn checksum over a sequence of decimal digits.

use vstd::prelude::*;
use crate::digits::{all_digit_bytes, byte_digits};

verus! {

/// What a digit in an even position from the right contributes: its double,
/// less nine where the double has two decimal digits.
pub open spec fn luhn_double(n: nat) -> nat {
    if 2 * n <= 9 {
        2 * n
    } else {
        (2 * n - 9) as nat
    }
}

/// What the digit `n` contributes at position `pos`, counted from the right
/// and starting at 1: itself at an odd position, `luhn_double(n)` at an even
/// one.
pub open spec fn luhn_term(n: nat, pos: nat) -> nat {
    if pos % 2 == 1 {
        n
    } else {
        luhn_double(n)
    }
}

/// The sum of the contributions of the `k` rightmost digits of `d`.
pub open spec fn luhn_partial(d: Seq<nat>, k: nat) -> nat
    recommends
        k <= d.len(),
    decreases k,
{
    if k == 0 {
        0
    } else {
        luhn_partial(d, (k - 1) as nat) + luhn_term(d[d.len() - k], k)
    }
}

/// The Luhn sum of `d`: the contributions of all its digits.
pub open spec fn luhn_sum(d: Seq<nat>) -> nat {
    luhn_partial(d, d.len())
}

/// Whether `d` passes the Luhn check: its sum is a multiple of ten.
pub open spec fn luhn_valid(d: Seq<nat>) -> bool {
    luhn_sum(d) % 10 == 0
}

/// The one digit that, appended to `body`, makes the whole pass the check.
pub open spec fn check_digit(body: Seq<nat>) -> nat {
    ((10 - luhn_sum(body.push(0)) % 10) % 10) as nat
}

/// The value of an ASCII digit.
pub fn numeric_char_to_u32(c: u8) -> (r: u32)
    requires
        c >= 48,
    ensures
        r == c - 48,
{
    (c as u32) - ('0' as u32)
}

/// The contribution of the ASCII digit `c` at an odd position from the right.
pub fn checksum_modifier_odd(c: u8) -> (r: u32)
    requires
        c >= 48,
    ensures
        r == c - 48,
{
    numeric_char_to_u32(c)
}

/// The contribution of the ASCII digit `c` at an even position from the right.
pub fn checksum_modifier_even(c: u8) -> (r: u32)
    requires
        c >= 48,
    ensures
        r == luhn_double((c - 48) as nat),
{
    let n: u32 = numeric_char_to_u32(c);
    let d: u32 = n * 2;
    if d <= 9 {
        d
    } else {
        d - 9
    }
}

/// Whether a string of ASCII digits passes the Luhn check.
///
/// Every byte is visited once, from the rightmost to the leftmost, whatever
/// the outcome. The running sum is kept reduced modulo ten, so the length of
/// the input is not limited.
pub fn is_valid(card: &[u8]) -> (r: bool)
    requires
        all_digit_bytes(card@),
    ensures
        r == luhn_valid(byte_digits(card@)),
{
    let n: usize = card.len();
    let ghost d = byte_digits(card@);
    let mut checksum: u32 = 0;
    let mut k: usize = 0;
    while k < n
        invariant
            n == card@.len(),
            d == byte_digits(card@),
            all_digit_bytes(card@),
            0 <= k <= n,
            checksum < 10,
            checksum == luhn_partial(d, k as nat) % 10,
        decreases n - k,
    {
        let c: u8 = card[n - 1 - k];
        k = k + 1;
        let is_odd: bool = k % 2 == 1;
        let term: u32 = if is_odd {
            checksum_modifier_odd(c)
        } else {
            checksum_modifier_even(c)
        };
        assert(term == luhn_term(d[d.len() - k], k as nat));
        checksum = (checksum + term) % 10;
    }
    checksum == 0
}

/// Changing the last digit changes the sum by the difference of the two
/// digits: the last digit stands at position 1 and counts as itself.
pub proof fn lemma_luhn_last_digit(body: Seq<nat>, x: nat, k: nat)
    requires
        1 <= k <= body.len() + 1,
    ensures
        luhn_partial(body.push(x), k) == luhn_partial(body.push(0), k) + x,
    decreases k,
{
    if k == 1 {
        assert(luhn_partial(body.push(x), 0) == 0);
        assert(luhn_partial(body.push(0), 0) == 0);
    } else {
        lemma_luhn_last_digit(body, x, (k - 1) as nat);
    }
}

/// Of the ten digits exactly one, `check_digit(body)`, completes `body` to a
/// sequence that passes the Luhn check; every other final digit fails it.
pub proof fn lemma_check_digit_unique(body: Seq<nat>, x: nat)
    requires
        x <= 9,
    ensures
        check_digit(body) <= 9,
        luhn_valid(body.push(x)) <==> x == check_digit(body),
{
    lemma_luhn_last_digit(body, x, body.len() + 1);
}

} // verus!
