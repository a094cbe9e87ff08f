//! Edge cases of the format guard, the Luhn check and the issuer table.

use creditcard::digits::parse_decimal;
use creditcard::issuer::{classify, leading_iin};
use creditcard::luhn::{
    checksum_modifier_even, checksum_modifier_odd, is_valid, numeric_char_to_u32,
};
use creditcard::{CreditCard, Error, Issuer};

#[test]
fn empty_string_is_invalid_format() {
    assert_eq!(CreditCard::parse_str(""), Err(Error::InvalidFormat));
}

#[test]
fn non_digit_is_invalid_format_at_any_place() {
    assert_eq!(CreditCard::parse_str("a111111111111111"), Err(Error::InvalidFormat));
    assert_eq!(CreditCard::parse_str("4111 1111 1111 1111"), Err(Error::InvalidFormat));
    assert_eq!(CreditCard::parse_str("4111-1111-1111-1111"), Err(Error::InvalidFormat));
    assert_eq!(CreditCard::parse_str("x"), Err(Error::InvalidFormat));
    assert_eq!(CreditCard::parse_str("0x"), Err(Error::InvalidFormat));
    assert_eq!(CreditCard::parse_str("411111111111111\u{661}"), Err(Error::InvalidFormat));
}

#[test]
fn sign_is_invalid_format() {
    assert_eq!(CreditCard::parse_str("+4111111111111111"), Err(Error::InvalidFormat));
    assert_eq!(CreditCard::parse_str("-4111111111111111"), Err(Error::InvalidFormat));
}

#[test]
fn number_beyond_64_bits_is_invalid_format() {
    assert_eq!(CreditCard::parse_str("18446744073709551616"), Err(Error::InvalidFormat));
    assert_eq!(CreditCard::parse_str("41111111111111111111"), Err(Error::InvalidFormat));
    assert_eq!(CreditCard::parse_str("099999999999999999999"), Err(Error::InvalidFormat));
}

#[test]
fn largest_64_bit_number_passes_the_format_guard() {
    assert_eq!(parse_decimal(b"18446744073709551615"), Some(u64::MAX));
    assert_eq!(parse_decimal(b"18446744073709551616"), None);
    assert_eq!(CreditCard::parse_str("18446744073709551615"), Err(Error::InvalidLength));
}

#[test]
fn short_digit_string_is_unknown_type() {
    assert_eq!(CreditCard::parse_str("4"), Err(Error::UnknownType));
    assert_eq!(CreditCard::parse_str("41111111111"), Err(Error::UnknownType));
    assert_eq!(CreditCard::parse_str("0"), Err(Error::UnknownType));
}

#[test]
fn leading_zero_is_unknown_type() {
    assert_eq!(CreditCard::parse_str("0411111111111111"), Err(Error::UnknownType));
    assert_eq!(CreditCard::parse_str("000000000000"), Err(Error::UnknownType));
    assert_eq!(CreditCard::parse_str("0000000000000000000000000"), Err(Error::UnknownType));
}

#[test]
fn unclaimed_prefix_is_unknown_type() {
    assert_eq!(CreditCard::parse_str("7000000000000000"), Err(Error::UnknownType));
    assert_eq!(CreditCard::parse_str("2000000000000000"), Err(Error::UnknownType));
    assert_eq!(CreditCard::parse_str("9000000000000000"), Err(Error::UnknownType));
}

#[test]
fn format_is_judged_before_length() {
    assert_eq!(CreditCard::parse_str("4111a"), Err(Error::InvalidFormat));
}

#[test]
fn length_is_judged_before_checksum() {
    assert_eq!(CreditCard::parse_str("41111111111112"), Err(Error::InvalidLength));
    assert_eq!(CreditCard::parse_str("37828224631000"), Err(Error::InvalidLength));
}

#[test]
fn prefix_one_is_classified_before_the_checksum_fails() {
    assert_eq!(classify(12345678), Some(Issuer::Uatp));
    assert_eq!(CreditCard::parse_str("123456789012345"), Err(Error::InvalidLuhn));
    assert_eq!(CreditCard::parse_str("123456789012347").map(|c| c.issuer()), Ok(Issuer::Uatp));
}

#[test]
fn same_string_same_result() {
    for text in ["4111111111111111", "4111111111111112", "41111111111111111", "12", "4x", ""] {
        let first = CreditCard::parse_str(text);
        let second = CreditCard::parse_str(text);
        assert_eq!(first, second);
        assert_eq!(text.parse::<CreditCard>(), first);
    }
}

#[test]
fn exactly_one_final_digit_passes() {
    for body in ["411111111111111", "7992739871", "3", "00000", "99999999999999999999999"] {
        let mut passing: u32 = 0;
        for last in b'0'..=b'9' {
            let mut digits = body.as_bytes().to_vec();
            digits.push(last);
            if is_valid(&digits) {
                passing += 1;
            }
        }
        assert_eq!(passing, 1);
    }
}

#[test]
fn luhn_known_numbers() {
    assert!(is_valid(b"79927398713"));
    assert!(!is_valid(b"79927398710"));
    assert!(is_valid(b"4111111111111111"));
    assert!(!is_valid(b"4111111111111112"));
    assert!(is_valid(b"0"));
    assert!(is_valid(b""));
    assert!(!is_valid(b"1"));
    assert!(is_valid(b"18"));
    assert!(is_valid(b"59"));
}

#[test]
fn luhn_contributions() {
    assert_eq!(numeric_char_to_u32(b'0'), 0);
    assert_eq!(numeric_char_to_u32(b'9'), 9);
    for digit in 0u8..=9 {
        assert_eq!(checksum_modifier_odd(b'0' + digit), u32::from(digit));
    }
    let doubled: [u32; 10] = [0, 2, 4, 6, 8, 1, 3, 5, 7, 9];
    for digit in 0u8..=9 {
        assert_eq!(checksum_modifier_even(b'0' + digit), doubled[usize::from(digit)]);
    }
}

#[test]
fn long_digit_string_does_not_overflow_the_checksum() {
    let digits = vec![b'9'; 1_000_000];
    assert!(is_valid(&digits));
    let digits = vec![b'9'; 1_000_001];
    assert!(!is_valid(&digits));
}

#[test]
fn decimal_reading() {
    assert_eq!(parse_decimal(b""), None);
    assert_eq!(parse_decimal(b"0"), Some(0));
    assert_eq!(parse_decimal(b"007"), Some(7));
    assert_eq!(parse_decimal(b"12a"), None);
    assert_eq!(parse_decimal(b"/"), None);
    assert_eq!(parse_decimal(b":"), None);
    assert_eq!(parse_decimal(b"4111111111111111"), Some(4111111111111111));
    assert_eq!(leading_iin(b"4111111111111111"), 41111111);
    assert_eq!(leading_iin(b"00000123"), 123);
    assert_eq!(leading_iin(b"99999999"), 99999999);
}

#[test]
fn specific_interval_wins_over_general() {
    assert_eq!(classify(60400099), Some(Issuer::RuPay));
    assert_eq!(classify(60400100), Some(Issuer::UkrCard));
    assert_eq!(classify(60420099), Some(Issuer::UkrCard));
    assert_eq!(classify(60420100), Some(Issuer::RuPay));
    assert_eq!(classify(60110000), Some(Issuer::Discover));
    assert_eq!(classify(65000200), Some(Issuer::Verve));
    assert_eq!(classify(65002800), Some(Issuer::Discover));
    assert_eq!(classify(62212600), Some(Issuer::Discover));
    assert_eq!(classify(62212599), Some(Issuer::UnionPay));
    assert_eq!(classify(41750000), Some(Issuer::VisaElectron));
    assert_eq!(classify(41750100), Some(Issuer::Visa));
    assert_eq!(classify(35711100), Some(Issuer::LankaPay));
    assert_eq!(classify(35711200), Some(Issuer::Jcb));
    assert_eq!(classify(50190000), Some(Issuer::Dankort));
    assert_eq!(classify(50180000), Some(Issuer::Maestro));
    assert_eq!(classify(50170000), Some(Issuer::Gpn));
    assert_eq!(classify(50800000), Some(Issuer::RuPay));
    assert_eq!(classify(63040000), Some(Issuer::Maestro));
    assert_eq!(classify(63600000), Some(Issuer::InterPayment));
    assert_eq!(classify(63700000), Some(Issuer::InstaPayment));
    assert_eq!(classify(63000000), Some(Issuer::Gpn));
    assert_eq!(classify(19460000), Some(Issuer::Gpn));
    assert_eq!(classify(19470000), Some(Issuer::Uatp));
}

#[test]
fn intervals_end_where_they_should() {
    assert_eq!(classify(0), None);
    assert_eq!(classify(9999999), None);
    assert_eq!(classify(10000000), Some(Issuer::Uatp));
    assert_eq!(classify(19999999), Some(Issuer::Uatp));
    assert_eq!(classify(20000000), None);
    assert_eq!(classify(21999999), None);
    assert_eq!(classify(22000000), Some(Issuer::Mir));
    assert_eq!(classify(22049999), Some(Issuer::Mir));
    assert_eq!(classify(22059999), Some(Issuer::Borica));
    assert_eq!(classify(22060000), None);
    assert_eq!(classify(22209999), None);
    assert_eq!(classify(22210000), Some(Issuer::Mastercard));
    assert_eq!(classify(27209999), Some(Issuer::Mastercard));
    assert_eq!(classify(27210000), None);
    assert_eq!(classify(32000000), None);
    assert_eq!(classify(35279999), None);
    assert_eq!(classify(35899999), Some(Issuer::Jcb));
    assert_eq!(classify(35900000), None);
    assert_eq!(classify(57000000), None);
    assert_eq!(classify(59000000), None);
    assert_eq!(classify(64000000), None);
    assert_eq!(classify(66000000), None);
    assert_eq!(classify(70000000), None);
    assert_eq!(classify(97919999), None);
    assert_eq!(classify(97930000), None);
    assert_eq!(classify(99999999), None);
    assert_eq!(classify(100000000), None);
    assert_eq!(classify(u32::MAX), None);
}

#[test]
fn issuer_names() {
    assert_eq!(Issuer::AmericanExpress.name(), "American Express");
    assert_eq!(Issuer::ChinaTUnion.name(), "China T-Union");
    assert_eq!(Issuer::UnionPay.name(), "UnionPay");
    assert_eq!(Issuer::DinersClub.name(), "Diners Club");
    assert_eq!(Issuer::Discover.name(), "Discover");
    assert_eq!(Issuer::UkrCard.name(), "UkrCard");
    assert_eq!(Issuer::RuPay.name(), "RuPay");
    assert_eq!(Issuer::InterPayment.name(), "InterPayment");
    assert_eq!(Issuer::InstaPayment.name(), "InstaPayment");
    assert_eq!(Issuer::Jcb.name(), "JCB");
    assert_eq!(Issuer::MaestroUk.name(), "Maestro UK");
    assert_eq!(Issuer::Maestro.name(), "Maestro");
    assert_eq!(Issuer::Dankort.name(), "Dankort");
    assert_eq!(Issuer::Mir.name(), "MIR");
    assert_eq!(Issuer::Borica.name(), "Borica");
    assert_eq!(Issuer::Mastercard.name(), "Mastercard");
    assert_eq!(Issuer::Troy.name(), "Troy");
    assert_eq!(Issuer::Visa.name(), "Visa");
    assert_eq!(Issuer::VisaElectron.name(), "Visa Electron");
    assert_eq!(Issuer::Uatp.name(), "UATP");
    assert_eq!(Issuer::Verve.name(), "Verve");
    assert_eq!(Issuer::LankaPay.name(), "LankaPay");
    assert_eq!(Issuer::Gpn.name(), "GPN");
}

#[test]
fn issuer_lengths() {
    let admitted = |issuer: Issuer| -> Vec<usize> {
        (0usize..=25).filter(|len| issuer.is_length_valid(*len)).collect()
    };
    assert_eq!(admitted(Issuer::AmericanExpress), vec![15]);
    assert_eq!(admitted(Issuer::ChinaTUnion), vec![19]);
    assert_eq!(admitted(Issuer::UnionPay), vec![16, 17, 18, 19]);
    assert_eq!(admitted(Issuer::DinersClub), vec![14, 15, 16, 17, 18, 19]);
    assert_eq!(admitted(Issuer::Discover), vec![16, 17, 18, 19]);
    assert_eq!(admitted(Issuer::UkrCard), vec![16, 17, 18, 19]);
    assert_eq!(admitted(Issuer::RuPay), vec![16]);
    assert_eq!(admitted(Issuer::InterPayment), vec![16, 17, 18, 19]);
    assert_eq!(admitted(Issuer::InstaPayment), vec![16]);
    assert_eq!(admitted(Issuer::Jcb), vec![16, 17, 18, 19]);
    assert_eq!(admitted(Issuer::MaestroUk), vec![12, 13, 14, 15, 16, 17, 18, 19]);
    assert_eq!(admitted(Issuer::Maestro), vec![12, 13, 14, 15, 16, 17, 18, 19]);
    assert_eq!(admitted(Issuer::Dankort), vec![16]);
    assert_eq!(admitted(Issuer::Mir), vec![16, 17, 18, 19]);
    assert_eq!(admitted(Issuer::Borica), vec![16]);
    assert_eq!(admitted(Issuer::Mastercard), vec![16]);
    assert_eq!(admitted(Issuer::Troy), vec![16]);
    assert_eq!(admitted(Issuer::Visa), vec![13, 16, 19]);
    assert_eq!(admitted(Issuer::VisaElectron), vec![16]);
    assert_eq!(admitted(Issuer::Uatp), vec![15]);
    assert_eq!(admitted(Issuer::Verve), vec![16, 18, 19]);
    assert_eq!(admitted(Issuer::LankaPay), vec![16]);
    assert_eq!(admitted(Issuer::Gpn), vec![16, 18, 19]);
    assert!(!Issuer::Visa.is_length_valid(usize::MAX));
}

#[test]
fn amex_name_and_number() {
    let card = CreditCard::parse_str("378282246310005").unwrap();

    assert_eq!(card.issuer(), Issuer::AmericanExpress);
    assert_eq!(card.issuer().name(), "American Express");
    assert_eq!(card.issuer_name(), "American Express");
    assert_eq!(card.pan(), 378282246310005);
}
