//! What holds of validation on every input.

use vstd::prelude::*;
use crate::card::{is_outcome_for, validation_outcome, well_formed, CardView, CreditCard, Error};
use crate::digits::{
    all_digit_chars, all_digits, char_digits, decimal_value, lemma_decimal_value_bound,
    lemma_leading_zero_bound, pow10,
};
use crate::issuer::{iin_of, issuer_of_iin, Issuer};
use crate::luhn::{check_digit, lemma_check_digit_unique, luhn_valid};

verus! {

/// A string that holds a character other than an ASCII decimal digit is
/// rejected as malformed.
pub proof fn lemma_non_digit_is_invalid_format(s: Seq<char>)
    requires
        !all_digit_chars(s),
    ensures
        validation_outcome(s) == Err::<CardView, Error>(Error::InvalidFormat),
{
}

/// A non-empty string of fewer than twelve digits has no known issuer.
pub proof fn lemma_short_is_unknown_type(s: Seq<char>)
    requires
        all_digit_chars(s),
        0 < s.len() < 12,
    ensures
        validation_outcome(s) == Err::<CardView, Error>(Error::UnknownType),
{
    let d = char_digits(s);
    assert(all_digits(d));
    lemma_decimal_value_bound(d);
    reveal_with_fuel(pow10, 13);
}

/// A string of digits that starts with a zero, and denotes a number that fits
/// in 64 bits, has no known issuer.
pub proof fn lemma_leading_zero_is_unknown_type(s: Seq<char>)
    requires
        well_formed(s),
        s[0] == '0',
    ensures
        validation_outcome(s) == Err::<CardView, Error>(Error::UnknownType),
{
}

/// A string of digits whose first eight digits belong to `issuer`, whose
/// length `issuer` admits and which passes the Luhn check is accepted, as a
/// card of that issuer with the number that the digits denote.
pub proof fn lemma_valid_is_accepted(s: Seq<char>, issuer: Issuer)
    requires
        all_digit_chars(s),
        issuer.admits_length(s.len()),
        issuer_of_iin(iin_of(char_digits(s))) == Some(issuer),
        luhn_valid(char_digits(s)),
    ensures
        validation_outcome(s) == Ok::<CardView, Error>(
            CardView { pan: decimal_value(char_digits(s)), issuer },
        ),
{
    let d = char_digits(s);
    assert(12 <= s.len() <= 19);
    assert(all_digits(d));
    lemma_decimal_value_bound(d);
    assert(pow10(d.len()) <= 10_000_000_000_000_000_000) by {
        reveal_with_fuel(pow10, 20);
    }
    if s[0] == '0' {
        assert(all_digits(d.take(8)));
        assert(d.take(8)[0] == d[0]);
        lemma_leading_zero_bound(d.take(8));
        assert(pow10(7) == 10_000_000) by {
            reveal_with_fuel(pow10, 8);
        }
        assert(issuer_of_iin(iin_of(d)) is None);
    }
}

/// Validating one string always gives the same result: two results that
/// both are outcomes for `s` are equal, field by field.
pub proof fn lemma_outcome_unique(
    s: Seq<char>,
    first: Result<CreditCard, Error>,
    second: Result<CreditCard, Error>,
)
    requires
        is_outcome_for(first, s),
        is_outcome_for(second, s),
    ensures
        first == second,
{
    if let Ok(a) = first {
        if let Ok(b) = second {
            a.lemma_view_determines(b);
        }
    }
}

/// For a sequence of at least two digits, exactly one choice of the final
/// digit passes the Luhn check: some digit does, and no two different digits
/// do.
pub proof fn lemma_one_final_digit_passes(d: Seq<nat>)
    requires
        d.len() >= 2,
        all_digits(d),
    ensures
        luhn_valid(d.update(d.len() - 1, check_digit(d.drop_last()))),
        check_digit(d.drop_last()) <= 9,
        forall|x: nat|
            x <= 9 && x != check_digit(d.drop_last()) ==> !luhn_valid(
                #[trigger] d.update(d.len() - 1, x),
            ),
{
    let body = d.drop_last();
    lemma_check_digit_unique(body, check_digit(body));
    assert(d.update(d.len() - 1, check_digit(body)) =~= body.push(check_digit(body)));
    assert forall|x: nat| x <= 9 && x != check_digit(body) implies !luhn_valid(
        #[trigger] d.update(d.len() - 1, x),
    ) by {
        lemma_check_digit_unique(body, x);
        assert(d.update(d.len() - 1, x) =~= body.push(x));
    }
}

} // verus!
