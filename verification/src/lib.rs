//! A validated, hashed password value.
//!
//! [`Password::new`] accepts a plaintext of at least [`MIN_LENGTH`] bytes
//! and keeps only its digest: the decimal text of a 64-bit hash. The
//! plaintext is never stored, and nothing here prints or logs it.
//!
//! The hash is the standard library's default hasher. It is fast and
//! unsalted, so a digest is no safe way to store a real credential.
//!
//! The contracts are checked by Verus, except for the one call into the
//! standard library's `Hash` impl for `str`, in [`hashing`], whose effect
//! is taken on trust.

pub mod decimal;
pub mod error;
pub mod hashing;
pub mod password;

pub use decimal::decimal_string;
pub use error::PasswordError;
pub use error::MIN_LENGTH;
pub use hashing::hash_text;
pub use password::Password;
