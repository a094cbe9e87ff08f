//! Card networks: their names, the lengths they issue, and the table that
//! identifies a network from the leading digits of a card number.

use vstd::prelude::*;
use crate::digits::{
    all_digit_bytes, all_digits, byte_digits, decimal_value, lemma_decimal_value_bound, pow10,
};

verus! {

/// Common card issuers.
///
/// The list is not exhaustive: more may be added.
#[derive(Debug, Clone, Copy, PartialEq, Eq, Structural)]
#[non_exhaustive]
pub enum Issuer {
    /// Prefixes 34, 37. Length 15.
    AmericanExpress,
    /// Prefix 31. Length 19.
    ChinaTUnion,
    /// Prefix 62. Lengths 16 to 19.
    UnionPay,
    /// Prefixes 30, 36, 38, 39. Lengths 14 to 19.
    DinersClub,
    /// Prefixes 6011, 644 to 649, 65, 622126 to 622925. Lengths 16 to 19.
    Discover,
    /// Prefixes 60400100 to 60420099. Lengths 16 to 19.
    UkrCard,
    /// Prefixes 60, 81, 82, 508. Length 16.
    RuPay,
    /// Prefix 636. Lengths 16 to 19.
    InterPayment,
    /// Prefixes 637 to 639. Length 16.
    InstaPayment,
    /// Prefixes 3528 to 3589. Lengths 16 to 19.
    Jcb,
    /// Prefixes 6759, 676770, 676774. Lengths 12 to 19.
    MaestroUk,
    /// Prefixes 5018, 5020, 5038, 5893, 6304, 6761 to 6763. Lengths 12 to 19.
    Maestro,
    /// Prefix 5019. Length 16.
    Dankort,
    /// Prefixes 2200 to 2204. Lengths 16 to 19.
    Mir,
    /// Prefix 2205. Length 16.
    Borica,
    /// Prefixes 2221 to 2720, 51 to 55. Length 16.
    Mastercard,
    /// Prefix 9792. Length 16.
    Troy,
    /// Prefix 4. Lengths 13, 16, 19.
    Visa,
    /// Prefixes 4026, 417500, 4508, 4844, 4913, 4917. Length 16.
    VisaElectron,
    /// Prefix 1. Length 15.
    Uatp,
    /// Prefixes 506099 to 506198, 650002 to 650027, 507865 to 507964.
    /// Lengths 16, 18, 19.
    Verve,
    /// Prefix 357111. Length 16.
    LankaPay,
    /// Prefixes 1946, 50, 56, 58, 60 to 63. Lengths 16, 18, 19.
    Gpn,
}

impl Issuer {
    /// The display name of the network, as a sequence of characters.
    pub open spec fn name_chars(self) -> Seq<char> {
        match self {
            Issuer::AmericanExpress => "American Express"@,
            Issuer::ChinaTUnion => "China T-Union"@,
            Issuer::UnionPay => "UnionPay"@,
            Issuer::DinersClub => "Diners Club"@,
            Issuer::Discover => "Discover"@,
            Issuer::UkrCard => "UkrCard"@,
            Issuer::RuPay => "RuPay"@,
            Issuer::InterPayment => "InterPayment"@,
            Issuer::InstaPayment => "InstaPayment"@,
            Issuer::Jcb => "JCB"@,
            Issuer::MaestroUk => "Maestro UK"@,
            Issuer::Maestro => "Maestro"@,
            Issuer::Dankort => "Dankort"@,
            Issuer::Mir => "MIR"@,
            Issuer::Borica => "Borica"@,
            Issuer::Mastercard => "Mastercard"@,
            Issuer::Troy => "Troy"@,
            Issuer::Visa => "Visa"@,
            Issuer::VisaElectron => "Visa Electron"@,
            Issuer::Uatp => "UATP"@,
            Issuer::Verve => "Verve"@,
            Issuer::LankaPay => "LankaPay"@,
            Issuer::Gpn => "GPN"@,
        }
    }

    /// Whether the network issues card numbers of `len` digits.
    pub open spec fn admits_length(self, len: nat) -> bool {
        match self {
            Issuer::AmericanExpress | Issuer::Uatp => len == 15,
            Issuer::ChinaTUnion => len == 19,
            Issuer::DinersClub => 14 <= len <= 19,
            Issuer::MaestroUk | Issuer::Maestro => 12 <= len <= 19,
            Issuer::UnionPay
            | Issuer::Discover
            | Issuer::UkrCard
            | Issuer::InterPayment
            | Issuer::Jcb
            | Issuer::Mir => 16 <= len <= 19,
            Issuer::RuPay
            | Issuer::InstaPayment
            | Issuer::Dankort
            | Issuer::Borica
            | Issuer::Mastercard
            | Issuer::Troy
            | Issuer::VisaElectron
            | Issuer::LankaPay => len == 16,
            Issuer::Visa => len == 13 || len == 16 || len == 19,
            Issuer::Verve | Issuer::Gpn => len == 16 || len == 18 || len == 19,
        }
    }

    /// The display name of the network.
    pub fn name(self) -> (r: &'static str)
        ensures
            r@ == self.name_chars(),
    {
        match self {
            Issuer::AmericanExpress => "American Express",
            Issuer::ChinaTUnion => "China T-Union",
            Issuer::UnionPay => "UnionPay",
            Issuer::DinersClub => "Diners Club",
            Issuer::Discover => "Discover",
            Issuer::UkrCard => "UkrCard",
            Issuer::RuPay => "RuPay",
            Issuer::InterPayment => "InterPayment",
            Issuer::InstaPayment => "InstaPayment",
            Issuer::Jcb => "JCB",
            Issuer::MaestroUk => "Maestro UK",
            Issuer::Maestro => "Maestro",
            Issuer::Dankort => "Dankort",
            Issuer::Mir => "MIR",
            Issuer::Borica => "Borica",
            Issuer::Mastercard => "Mastercard",
            Issuer::Troy => "Troy",
            Issuer::Visa => "Visa",
            Issuer::VisaElectron => "Visa Electron",
            Issuer::Uatp => "UATP",
            Issuer::Verve => "Verve",
            Issuer::LankaPay => "LankaPay",
            Issuer::Gpn => "GPN",
        }
    }

    /// Whether the network issues card numbers of `len` digits.
    pub fn is_length_valid(self, len: usize) -> (r: bool)
        ensures
            r == self.admits_length(len as nat),
    {
        match self {
            Issuer::AmericanExpress => len == 15,
            Issuer::ChinaTUnion => len == 19,
            Issuer::UnionPay => 16 <= len && len <= 19,
            Issuer::DinersClub => 14 <= len && len <= 19,
            Issuer::Discover => 16 <= len && len <= 19,
            Issuer::UkrCard => 16 <= len && len <= 19,
            Issuer::RuPay => len == 16,
            Issuer::InterPayment => 16 <= len && len <= 19,
            Issuer::InstaPayment => len == 16,
            Issuer::Jcb => 16 <= len && len <= 19,
            Issuer::MaestroUk => 12 <= len && len <= 19,
            Issuer::Maestro => 12 <= len && len <= 19,
            Issuer::Dankort => len == 16,
            Issuer::Mir => 16 <= len && len <= 19,
            Issuer::Borica => len == 16,
            Issuer::Mastercard => len == 16,
            Issuer::Troy => len == 16,
            Issuer::Visa => len == 13 || len == 16 || len == 19,
            Issuer::VisaElectron => len == 16,
            Issuer::Uatp => len == 15,
            Issuer::Verve => len == 16 || len == 18 || len == 19,
            Issuer::LankaPay => len == 16,
            Issuer::Gpn => len == 16 || len == 18 || len == 19,
        }
    }
}

/// The network claimed by an interval of eight-digit prefixes, if any.
pub open spec fn tier_eight(p: nat) -> Option<Issuer> {
    if 60400100 <= p <= 60420099 {
        Some(Issuer::UkrCard)
    } else {
        None
    }
}

/// The network claimed by an interval of six-digit prefixes, if any.
pub open spec fn tier_six(p: nat) -> Option<Issuer> {
    if 506099 <= p <= 506198 || 650002 <= p <= 650027 || 507865 <= p <= 507964 {
        Some(Issuer::Verve)
    } else if 622126 <= p <= 622925 {
        Some(Issuer::Discover)
    } else if p == 417500 {
        Some(Issuer::VisaElectron)
    } else if p == 357111 {
        Some(Issuer::LankaPay)
    } else if p == 676770 || p == 676774 {
        Some(Issuer::MaestroUk)
    } else {
        None
    }
}

/// The network claimed by an interval of four-digit prefixes, if any.
pub open spec fn tier_four(p: nat) -> Option<Issuer> {
    if p == 6011 {
        Some(Issuer::Discover)
    } else if 3528 <= p <= 3589 {
        Some(Issuer::Jcb)
    } else if p == 6759 {
        Some(Issuer::MaestroUk)
    } else if p == 5018 || p == 5020 || p == 5038 || p == 5893 || p == 6304 || 6761 <= p <= 6763 {
        Some(Issuer::Maestro)
    } else if p == 5019 {
        Some(Issuer::Dankort)
    } else if 2200 <= p <= 2204 {
        Some(Issuer::Mir)
    } else if p == 2205 {
        Some(Issuer::Borica)
    } else if 2221 <= p <= 2720 {
        Some(Issuer::Mastercard)
    } else if p == 9792 {
        Some(Issuer::Troy)
    } else if p == 4026 || p == 4508 || p == 4844 || p == 4913 || p == 4917 {
        Some(Issuer::VisaElectron)
    } else if p == 1946 {
        Some(Issuer::Gpn)
    } else {
        None
    }
}

/// The network claimed by an interval of three-digit prefixes, if any.
pub open spec fn tier_three(p: nat) -> Option<Issuer> {
    if 644 <= p <= 649 {
        Some(Issuer::Discover)
    } else if p == 508 {
        Some(Issuer::RuPay)
    } else if p == 636 {
        Some(Issuer::InterPayment)
    } else if 637 <= p <= 639 {
        Some(Issuer::InstaPayment)
    } else {
        None
    }
}

/// The network claimed by an interval of two-digit prefixes, if any. Where
/// two intervals overlap, the one listed first claims the prefix.
pub open spec fn tier_two(p: nat) -> Option<Issuer> {
    if p == 34 || p == 37 {
        Some(Issuer::AmericanExpress)
    } else if p == 31 {
        Some(Issuer::ChinaTUnion)
    } else if p == 62 {
        Some(Issuer::UnionPay)
    } else if p == 30 || p == 36 || p == 38 || p == 39 {
        Some(Issuer::DinersClub)
    } else if p == 65 {
        Some(Issuer::Discover)
    } else if p == 60 || p == 81 || p == 82 {
        Some(Issuer::RuPay)
    } else if 51 <= p <= 55 {
        Some(Issuer::Mastercard)
    } else if p == 50 || p == 56 || p == 58 || 60 <= p <= 63 {
        Some(Issuer::Gpn)
    } else {
        None
    }
}

/// The network claimed by a one-digit prefix, if any.
pub open spec fn tier_one(p: nat) -> Option<Issuer> {
    if p == 4 {
        Some(Issuer::Visa)
    } else if p == 1 {
        Some(Issuer::Uatp)
    } else {
        None
    }
}

/// The network of a card number whose first eight digits denote `iin`.
///
/// The tiers are consulted from the longest prefix to the shortest, and the
/// first that claims the prefix decides: a specific interval wins over a
/// general one that contains it.
pub open spec fn issuer_of_iin(iin: nat) -> Option<Issuer> {
    if tier_eight(iin).is_some() {
        tier_eight(iin)
    } else if tier_six(iin / 100).is_some() {
        tier_six(iin / 100)
    } else if tier_four(iin / 10_000).is_some() {
        tier_four(iin / 10_000)
    } else if tier_three(iin / 100_000).is_some() {
        tier_three(iin / 100_000)
    } else if tier_two(iin / 1_000_000).is_some() {
        tier_two(iin / 1_000_000)
    } else {
        tier_one(iin / 10_000_000)
    }
}

/// The number that the first eight digits of `d` denote: the longest prefix
/// by which an issuer is identified.
pub open spec fn iin_of(d: Seq<nat>) -> nat {
    decimal_value(d.take(8))
}

/// Reads the first eight of a string of ASCII digits as a number.
pub fn leading_iin(bytes: &[u8]) -> (r: u32)
    requires
        bytes@.len() >= 8,
        all_digit_bytes(bytes@),
    ensures
        r == iin_of(byte_digits(bytes@)),
{
    let ghost d = byte_digits(bytes@).take(8);
    let mut acc: u32 = 0;
    let mut i: usize = 0;
    while i < 8
        invariant
            bytes@.len() >= 8,
            all_digit_bytes(bytes@),
            d == byte_digits(bytes@).take(8),
            0 <= i <= 8,
            acc == decimal_value(d.take(i as int)),
        decreases 8 - i,
    {
        proof {
            assert(all_digits(d.take(i as int)));
            lemma_decimal_value_bound(d.take(i as int));
            reveal_with_fuel(pow10, 9);
            assert(d.take(i + 1).drop_last() =~= d.take(i as int));
            assert(d.take(i + 1).last() == (bytes@[i as int] - 48) as nat);
        }
        acc = acc * 10 + (bytes[i] - 48) as u32;
        i = i + 1;
    }
    proof {
        assert(d.take(8) =~= d);
    }
    acc
}

/// Identifies the network from the number that the first eight digits of a
/// card number denote. Returns `None` where no interval of the table holds it.
pub fn classify(iin: u32) -> (r: Option<Issuer>)
    ensures
        r == issuer_of_iin(iin as nat),
{
    let issuer = match iin {
        // eight digits
        60400100..=60420099 => Issuer::UkrCard,
        // six digits
        50609900..=50619899 | 65000200..=65002799 | 50786500..=50796499 => Issuer::Verve,
        62212600..=62292599 => Issuer::Discover,
        41750000..=41750099 => Issuer::VisaElectron,
        35711100..=35711199 => Issuer::LankaPay,
        67677000..=67677099 | 67677400..=67677499 => Issuer::MaestroUk,
        // four digits
        60110000..=60119999 => Issuer::Discover,
        35280000..=35899999 => Issuer::Jcb,
        67590000..=67599999 => Issuer::MaestroUk,
        50180000..=50189999
        | 50200000..=50209999
        | 50380000..=50389999
        | 58930000..=58939999
        | 63040000..=63049999
        | 67610000..=67639999 => Issuer::Maestro,
        50190000..=50199999 => Issuer::Dankort,
        22000000..=22049999 => Issuer::Mir,
        22050000..=22059999 => Issuer::Borica,
        22210000..=27209999 => Issuer::Mastercard,
        97920000..=97929999 => Issuer::Troy,
        40260000..=40269999
        | 45080000..=45089999
        | 48440000..=48449999
        | 49130000..=49139999
        | 49170000..=49179999 => Issuer::VisaElectron,
        19460000..=19469999 => Issuer::Gpn,
        // three digits
        64400000..=64999999 => Issuer::Discover,
        50800000..=50899999 => Issuer::RuPay,
        63600000..=63699999 => Issuer::InterPayment,
        63700000..=63999999 => Issuer::InstaPayment,
        // two digits
        34000000..=34999999 | 37000000..=37999999 => Issuer::AmericanExpress,
        31000000..=31999999 => Issuer::ChinaTUnion,
        62000000..=62999999 => Issuer::UnionPay,
        30000000..=30999999
        | 36000000..=36999999
        | 38000000..=38999999
        | 39000000..=39999999 => Issuer::DinersClub,
        65000000..=65999999 => Issuer::Discover,
        60000000..=60999999 | 81000000..=81999999 | 82000000..=82999999 => Issuer::RuPay,
        51000000..=55999999 => Issuer::Mastercard,
        50000000..=50999999
        | 56000000..=56999999
        | 58000000..=58999999
        | 60000000..=63999999 => Issuer::Gpn,
        // one digit
        40000000..=49999999 => Issuer::Visa,
        10000000..=19999999 => Issuer::Uatp,
        _ => {
            return None;
        },
    };
    Some(issuer)
}

} // verus!
