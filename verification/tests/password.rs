use hashed_password::Password;
use hashed_password::PasswordError;
use hashed_password::MIN_LENGTH;
use std::collections::hash_map::DefaultHasher;
use std::hash::Hash;
use std::hash::Hasher;

fn std_digest(raw: &str) -> String {
    let mut hasher = DefaultHasher::new();
    raw.hash(&mut hasher);
    hasher.finish().to_string()
}

#[test]
fn test_password_new() {
    let pwd = Password::new("<PASSWORD>");
    assert!(pwd.is_ok());
    let password = pwd.unwrap();
    assert_ne!(password.digest().len(), 0); // Make sure there's a hash
}

#[test]
fn test_password_too_short() {
    let pwd = Password::new("less");
    assert!(pwd.is_err());
}

#[test]
fn test_password_duplicate_hash() {
    let raw_pwd: String = String::from("<PASSWORD>");
    let pwd = Password::new(&raw_pwd);
    assert!(pwd.is_ok());
    let second_pwd = Password::new(&raw_pwd);
    assert!(second_pwd.is_ok());

    assert_eq!(pwd.unwrap().digest(), second_pwd.unwrap().digest());
}

#[test]
fn min_length_is_eight() {
    assert_eq!(MIN_LENGTH, 8);
}

#[test]
fn too_short_carries_the_exact_length() {
    let inputs = ["", "a", "ab", "abc", "abcd", "abcde", "abcdef", "abcdefg"];
    for raw in inputs {
        assert_eq!(Password::new(raw).err(), Some(PasswordError::TooShort(raw.len())));
    }
    assert_eq!(Password::new("less").err(), Some(PasswordError::TooShort(4)));
}

#[test]
fn eight_characters_are_accepted() {
    assert!(Password::new("abcdefgh").is_ok());
}

#[test]
fn seven_characters_are_refused() {
    assert_eq!(Password::new("abcdefg").err(), Some(PasswordError::TooShort(7)));
}

#[test]
fn empty_plaintext_is_refused_with_length_zero() {
    assert_eq!(Password::new("").err(), Some(PasswordError::TooShort(0)));
}

#[test]
fn long_plaintext_is_accepted() {
    let raw = "x".repeat(10_000);
    assert!(Password::new(&raw).is_ok());
}

#[test]
fn length_is_measured_in_bytes() {
    // Three two-byte characters: six bytes.
    assert_eq!(
        Password::new("\u{e9}\u{e9}\u{e9}").err(),
        Some(PasswordError::TooShort(6))
    );
    // Four two-byte characters: eight bytes, though only four characters.
    assert!(Password::new("\u{e9}\u{e9}\u{e9}\u{e9}").is_ok());
}

#[test]
fn same_plaintext_gives_same_digest() {
    let first = Password::new("password").unwrap();
    let second = Password::new("password").unwrap();
    assert_eq!(first.digest(), second.digest());
}

#[test]
fn digest_is_the_decimal_text_of_the_default_hash() {
    for raw in ["password", "abcdefgh", "<PASSWORD>", "correct horse battery staple"] {
        let made = Password::new(raw).unwrap();
        assert_eq!(made.digest(), std_digest(raw));
    }
}

#[test]
fn different_plaintexts_give_different_digests() {
    let first = Password::new("password1").unwrap();
    let second = Password::new("password2").unwrap();
    assert_ne!(first.digest(), second.digest());
    let empty_state = DefaultHasher::new().finish().to_string();
    assert_ne!(first.digest(), empty_state);
}

#[test]
fn digest_is_one_to_twenty_decimal_digits() {
    for raw in ["password", "abcdefgh", "12345678", "00000000000000000000"] {
        let made = Password::new(raw).unwrap();
        let digest = made.digest();
        assert!(!digest.is_empty());
        assert!(digest.len() <= 20);
        assert!(digest.chars().all(|c| c.is_ascii_digit()));
        assert!(digest == "0" || !digest.starts_with('0'));
        assert_eq!(digest.parse::<u64>().unwrap().to_string(), digest);
    }
}

#[test]
fn digest_is_not_the_plaintext() {
    let raw = "a-suitably-distinct-and-long-plaintext-0123456789";
    let made = Password::new(raw).unwrap();
    assert_ne!(made.digest(), raw);
    assert!(!made.digest().contains(raw));
}

#[test]
fn debug_form_does_not_show_the_plaintext() {
    let raw = "a-suitably-distinct-and-long-plaintext-0123456789";
    let made = Password::new(raw).unwrap();
    let shown = format!("{:?}", made);
    assert!(!shown.contains(raw));
    assert!(shown.contains(made.digest()));
}

#[test]
fn plaintext_is_left_with_the_caller() {
    let raw = String::from("still-mine-after-the-call");
    let made = Password::new(&raw);
    assert!(made.is_ok());
    assert_eq!(raw, "still-mine-after-the-call");
}
