//! Validation of payment card numbers.
//!
//! A card number is a string of ASCII decimal digits. Validation guards the
//! format, identifies the issuing network from the leading digits, checks the
//! digit count against the lengths that network issues, and verifies the Luhn
//! check digit.

pub mod digits;
pub mod luhn;
pub mod issuer;
pub mod card;
pub mod laws;

pub use card::{CreditCard, Error};
pub use issuer::Issuer;
