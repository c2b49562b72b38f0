//! The password value and its validating constructor.

use crate::decimal::decimal_digits;
use crate::decimal::decimal_string;
use crate::decimal::is_decimal_char;
use crate::decimal::lemma_decimal_digits_form;
use crate::decimal::lemma_decimal_digits_injective;
use crate::decimal::lemma_decimal_digits_len_u64;
use crate::error::PasswordError;
use crate::error::MIN_LENGTH;
use crate::hashing::hash_text;
use crate::hashing::text_hash;
use vstd::prelude::*;
use vstd::utf8::encode_utf8;
use vstd::utf8::is_ascii_chars;
use vstd::utf8::is_ascii_chars_encode_utf8;

verus! {

/// The length that the constructor measures: the number of bytes of the
/// text's UTF-8 form. For ASCII text that is its number of characters.
pub open spec fn measured_len(raw: Seq<char>) -> nat {
    encode_utf8(raw).len()
}

/// Whether the plaintext `raw` is long enough to be accepted.
pub open spec fn acceptable(raw: Seq<char>) -> bool {
    measured_len(raw) >= MIN_LENGTH
}

/// The digest kept for the plaintext `raw`: the decimal text of its hash.
pub open spec fn digest_of(raw: Seq<char>) -> Seq<char> {
    decimal_digits(text_hash(raw) as nat)
}

/// Whether `text` is the decimal text of some 64-bit value.
pub open spec fn is_digest_text(text: Seq<char>) -> bool {
    exists|h: u64| text == decimal_digits(h as nat)
}

/// Whether `needle` stands somewhere in `hay` as one unbroken run.
pub open spec fn occurs_in(needle: Seq<char>, hay: Seq<char>) -> bool {
    exists|at: int|
        0 <= at && at + needle.len() <= hay.len() && #[trigger] hay.subrange(
            at,
            at + needle.len(),
        ) == needle
}

/// Whether `raw` could not be mistaken for a digest: it is longer than any
/// digest, or holds a character that is no decimal digit.
pub open spec fn unlike_digest(raw: Seq<char>) -> bool {
    raw.len() > 20 || exists|i: int| 0 <= i < raw.len() && !is_decimal_char(#[trigger] raw[i])
}

/// A password that passed validation, held as the digest of its plaintext.
/// The plaintext itself is not kept.
#[derive(Debug, Hash)]
pub struct Password(String);

impl View for Password {
    type V = Seq<char>;

    /// The digest that the password holds.
    closed spec fn view(&self) -> Seq<char> {
        self.0@
    }
}

impl Password {
    #[verifier::type_invariant]
    spec fn holds_digest(&self) -> bool {
        is_digest_text(self.0@)
    }

    /// What [`Password::new`] returns for the plaintext `raw`.
    pub open spec fn outcome(raw: Seq<char>, r: Result<Password, PasswordError>) -> bool {
        match r {
            Ok(password) => acceptable(raw) && password@ == digest_of(raw),
            Err(e) => !acceptable(raw) && e == PasswordError::TooShort(measured_len(raw) as usize),
        }
    }

    /// Validates the plaintext and keeps its digest.
    ///
    /// A plaintext of fewer than [`MIN_LENGTH`] bytes is turned down with
    /// its length; any other is accepted.
    pub fn new(password: &str) -> (r: Result<Password, PasswordError>)
        ensures
            Password::outcome(password@, r),
            r matches Ok(made) ==> is_digest_text(made@) && 1 <= made@.len() <= 20,
    {
        let pwd_length: usize = password.as_bytes().len();

        if pwd_length < MIN_LENGTH {
            return Err(PasswordError::TooShort(pwd_length));
        }
        let hashed_pwd: u64 = hash_text(password);
        let hashed_pwd_str: String = decimal_string(hashed_pwd);
        proof {
            lemma_decimal_digits_len_u64(hashed_pwd);
        }

        Ok(Password(hashed_pwd_str))
    }

    /// The digest, as text.
    pub fn digest(&self) -> (r: &str)
        ensures
            r@ == self@,
            is_digest_text(r@),
    {
        proof {
            use_type_invariant(self);
        }
        self.0.as_str()
    }
}

/// For ASCII text the measured length is the number of characters.
pub proof fn lemma_measured_len_ascii(raw: Seq<char>)
    requires
        is_ascii_chars(raw),
    ensures
        measured_len(raw) == raw.len(),
{
    is_ascii_chars_encode_utf8(raw);
}

/// An ASCII plaintext is accepted exactly when it has at least
/// [`MIN_LENGTH`] characters, and a shorter one is turned down with its
/// number of characters.
pub proof fn lemma_ascii_outcome(raw: Seq<char>, r: Result<Password, PasswordError>)
    requires
        is_ascii_chars(raw),
        Password::outcome(raw, r),
    ensures
        r is Ok <==> raw.len() >= MIN_LENGTH,
        raw.len() < MIN_LENGTH ==> r == Err::<Password, PasswordError>(
            PasswordError::TooShort(raw.len() as usize),
        ),
{
    lemma_measured_len_ascii(raw);
}

/// Making a password is a function of the plaintext: two results for the
/// same plaintext agree, in success or failure, in digest or error.
pub proof fn lemma_same_plaintext_same_outcome(
    raw: Seq<char>,
    first: Result<Password, PasswordError>,
    second: Result<Password, PasswordError>,
)
    requires
        Password::outcome(raw, first),
        Password::outcome(raw, second),
    ensures
        first is Ok <==> second is Ok,
        first matches Ok(a) ==> second matches Ok(b) && a@ == b@,
        first matches Err(e) ==> second == Err::<Password, PasswordError>(e),
{
}

/// Every digest is the decimal text of a 64-bit value: one to twenty
/// decimal digits.
pub proof fn lemma_digest_text_form(text: Seq<char>)
    requires
        is_digest_text(text),
    ensures
        1 <= text.len() <= 20,
        forall|i: int| 0 <= i < text.len() ==> is_decimal_char(#[trigger] text[i]),
{
    let h: u64 = choose|h: u64| text == decimal_digits(h as nat);
    lemma_decimal_digits_form(h as nat);
    lemma_decimal_digits_len_u64(h);
}

/// Whatever the plaintext, its digest is the decimal text of a 64-bit
/// value, and so is never empty.
pub proof fn lemma_digest_nonempty(raw: Seq<char>)
    ensures
        is_digest_text(digest_of(raw)),
        digest_of(raw).len() >= 1,
{
    lemma_decimal_digits_len_u64(text_hash(raw));
}

/// The digest tells the hash of the plaintext and nothing else about it:
/// two plaintexts have the same digest exactly when they have the same
/// hash.
pub proof fn lemma_digest_tells_hash_only(a: Seq<char>, b: Seq<char>)
    ensures
        digest_of(a) == digest_of(b) <==> text_hash(a) == text_hash(b),
{
    if digest_of(a) == digest_of(b) {
        lemma_decimal_digits_injective(text_hash(a) as nat, text_hash(b) as nat);
    }
}

/// No digest holds a plaintext that is unlike a digest: one of more than
/// twenty characters, or with a character that is no decimal digit, is
/// neither equal to a digest nor found inside one.
///
/// Nothing is claimed of a plaintext of up to twenty decimal digits: by
/// chance its digits may stand in its own digest.
pub proof fn lemma_digest_holds_no_plaintext(raw: Seq<char>, text: Seq<char>)
    requires
        unlike_digest(raw),
        is_digest_text(text),
    ensures
        text != raw,
        !occurs_in(raw, text),
{
    lemma_digest_text_form(text);
    if occurs_in(raw, text) {
        let at: int = choose|at: int|
            0 <= at && at + raw.len() <= text.len() && #[trigger] text.subrange(
                at,
                at + raw.len(),
            ) == raw;
        let i: int = choose|i: int| 0 <= i < raw.len() && !is_decimal_char(#[trigger] raw[i]);
        assert(raw[i] == text.subrange(at, at + raw.len())[i]);
    }
    if text == raw {
        assert(text.subrange(0int, 0int + raw.len()) =~= raw);
    }
}

} // verus!
