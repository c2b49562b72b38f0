//! Why a plaintext was turned down.

use crate::decimal::decimal_digits;
use crate::decimal::push_decimal;
use vstd::prelude::*;

verus! {

/// The least length, in bytes, of a plaintext that is accepted.
pub const MIN_LENGTH: usize = 8;

/// The reasons for which no password is made.
#[derive(Debug, PartialEq)]
pub enum PasswordError {
    /// The plaintext has fewer than [`MIN_LENGTH`] bytes; the field is the
    /// length it does have.
    TooShort(usize),
    /// The input is no valid text; the field says what is wrong with it.
    /// Kept for callers that decode bytes themselves: a `&str` is always
    /// valid, so [`crate::Password::new`] never returns it.
    InvalidEncoding(String),
}

impl PasswordError {
    /// The sentence that tells a person what went wrong.
    pub open spec fn message_text(&self) -> Seq<char> {
        match self {
            PasswordError::TooShort(n) => "Password should be at least "@ + decimal_digits(
                MIN_LENGTH as nat,
            ) + " chars long, but was "@ + decimal_digits(*n as nat),
            PasswordError::InvalidEncoding(detail) => "Password should be a valid string "@
                + detail@,
        }
    }

    /// Writes out [`Self::message_text`].
    pub fn message(&self) -> (r: String)
        ensures
            r@ == self.message_text(),
    {
        match self {
            PasswordError::TooShort(n) => {
                let mut out: String = String::from_str("Password should be at least ");
                push_decimal(&mut out, MIN_LENGTH as u64);
                out.append(" chars long, but was ");
                push_decimal(&mut out, *n as u64);
                out
            },
            PasswordError::InvalidEncoding(detail) => {
                String::from_str("Password should be a valid string ").concat(detail.as_str())
            },
        }
    }
}

} // verus!
