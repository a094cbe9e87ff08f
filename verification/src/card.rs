//! Card numbers: the validation of a digit string and its result.

use vstd::prelude::*;
use vstd::string::is_ascii_spec_bytes;
use crate::digits::{all_digit_chars, char_digits, decimal_value, lemma_ascii_digits, parse_decimal};
use crate::issuer::{classify, iin_of, issuer_of_iin, leading_iin, Issuer};
use crate::luhn::{is_valid, luhn_valid};

verus! {

/// Why a string is not a card number. The kinds are listed in the order in
/// which validation looks for them; the first that applies is reported.
#[derive(Debug, Clone, Copy, PartialEq, Eq, Structural)]
pub enum Error {
    /// The string is empty, holds a character that is no ASCII decimal digit,
    /// or denotes a number that does not fit in 64 bits.
    InvalidFormat,
    /// The string has fewer than twelve digits, starts with a zero, or starts
    /// with digits that no known issuer claims.
    UnknownType,
    /// The issuer is known and does not issue numbers of this length.
    InvalidLength,
    /// The Luhn check fails.
    InvalidLuhn,
}

/// A card number.
#[derive(Debug, PartialEq, Eq, Clone, Copy)]
pub struct CreditCard {
    pan: u64,
    issuer: Issuer,
}

/// What a card number is: the number its digits denote, and its issuer.
pub struct CardView {
    pub pan: nat,
    pub issuer: Issuer,
}

impl View for CreditCard {
    type V = CardView;

    closed spec fn view(&self) -> CardView {
        CardView { pan: self.pan as nat, issuer: self.issuer }
    }
}

/// Whether `s` passes the format guard: it is a non-empty string of ASCII
/// decimal digits and denotes a number that fits in 64 bits.
pub open spec fn well_formed(s: Seq<char>) -> bool {
    s.len() > 0 && all_digit_chars(s) && decimal_value(char_digits(s)) <= u64::MAX
}

/// The result of validating the string `s`.
///
/// The format guard comes first, then the issuer, then the length, then the
/// Luhn check; the first stage that fails decides the error.
pub open spec fn validation_outcome(s: Seq<char>) -> Result<CardView, Error> {
    let d = char_digits(s);
    if !well_formed(s) {
        Err(Error::InvalidFormat)
    } else if s.len() < 12 || s[0] == '0' {
        Err(Error::UnknownType)
    } else {
        match issuer_of_iin(iin_of(d)) {
            None => Err(Error::UnknownType),
            Some(issuer) => if !issuer.admits_length(s.len()) {
                Err(Error::InvalidLength)
            } else if !luhn_valid(d) {
                Err(Error::InvalidLuhn)
            } else {
                Ok(CardView { pan: decimal_value(d), issuer })
            },
        }
    }
}

/// Whether some string validates to the card `v`.
pub open spec fn is_validated(v: CardView) -> bool {
    exists|s: Seq<char>| validation_outcome(s) == Ok::<CardView, Error>(v)
}

/// Whether `r` is the result that validating the string `s` gives: the card
/// or the error that `validation_outcome` names.
pub open spec fn is_outcome_for(r: Result<CreditCard, Error>, s: Seq<char>) -> bool {
    match r {
        Ok(c) => validation_outcome(s) == Ok::<CardView, Error>(c@),
        Err(e) => validation_outcome(s) == Err::<CardView, Error>(e),
    }
}

impl CreditCard {
    /// Every card is the result of a successful validation.
    #[verifier::type_invariant]
    spec fn validated(self) -> bool {
        is_validated(self@)
    }

    /// Two cards with the same number and issuer are the same card.
    pub proof fn lemma_view_determines(self, other: CreditCard)
        requires
            self@ == other@,
        ensures
            self == other,
    {
    }

    /// Validates a card number given as a string of ASCII digits, without
    /// separators.
    ///
    /// The result depends on the characters of `card` alone: it is what
    /// `validation_outcome` names for them.
    pub fn parse_str(card: &str) -> (r: Result<CreditCard, Error>)
        ensures
            is_outcome_for(r, card@),
    {
        if !card.is_ascii() {
            return Err(Error::InvalidFormat);
        }
        let bytes = card.as_bytes();
        proof {
            is_ascii_spec_bytes(card);
            lemma_ascii_digits(card@, bytes@);
        }
        let pan: u64 = match parse_decimal(bytes) {
            Some(v) => v,
            None => {
                return Err(Error::InvalidFormat);
            },
        };
        if bytes.len() < 12 || bytes[0] == 48 {
            return Err(Error::UnknownType);
        }
        let issuer = match classify(leading_iin(bytes)) {
            Some(found) => found,
            None => {
                return Err(Error::UnknownType);
            },
        };
        if !issuer.is_length_valid(bytes.len()) {
            return Err(Error::InvalidLength);
        }
        if !is_valid(bytes) {
            return Err(Error::InvalidLuhn);
        }
        Ok(CreditCard { pan, issuer })
    }

    /// The issuer of the card. A card in hand is one that validation gave.
    pub fn issuer(&self) -> (r: Issuer)
        ensures
            r == self@.issuer,
            is_validated(self@),
    {
        proof {
            use_type_invariant(self);
        }
        self.issuer
    }

    /// The display name of the card's issuer.
    pub fn issuer_name(&self) -> (r: &'static str)
        ensures
            r@ == self@.issuer.name_chars(),
    {
        self.issuer.name()
    }

    /// The card number. A card in hand is one that validation gave.
    pub fn pan(&self) -> (r: u64)
        ensures
            r == self@.pan,
            is_validated(self@),
    {
        proof {
            use_type_invariant(self);
        }
        self.pan
    }
}

impl std::str::FromStr for CreditCard {
    type Err = Error;

    /// The same as `CreditCard::parse_str`.
    fn from_str(card: &str) -> (r: Result<CreditCard, Error>)
        ensures
            is_outcome_for(r, card@),
    {
        CreditCard::parse_str(card)
    }
}

} // verus!
