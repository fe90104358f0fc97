use saferet::SecretString;
use std::str::FromStr;
use zeroize::Zeroize;

/// Debug output masks the content.
#[test]
fn test_secret_string_debug() {
    let secret = SecretString::new("super-secret");
    let debug_str = format!("{:?}", secret);
    assert_eq!(debug_str, "SecretString(***)");
    assert_eq!(secret.expose(), "super-secret");
}

/// Display output masks the content.
#[test]
fn test_secret_string_display() {
    let secret = SecretString::new("super-secret");
    let display_str = format!("{}", secret);
    assert_eq!(display_str, "***");
}

/// Explicit zeroize leaves an empty secret.
#[test]
fn test_secret_string_zeroize() {
    let mut secret = SecretString::new("sensitive-data");

    assert_eq!(secret.expose(), "sensitive-data");

    secret.zeroize();

    assert_eq!(secret.expose(), "");
}

/// Conversions from owned and borrowed text.
#[test]
fn secret_string_test_from_implementations() {
    let from_string: SecretString = String::from("from_string").into();
    assert_eq!(from_string.expose(), "from_string");

    let from_str: SecretString = "from_str".into();
    assert_eq!(from_str.expose(), "from_str");

    let direct_from = SecretString::from("direct");
    assert_eq!(direct_from.expose(), "direct");
}

/// The default secret is empty.
#[test]
fn secret_string_test_default() {
    let default_secret = SecretString::default();
    assert_eq!(default_secret.expose(), "");
}

/// A clone holds the same content.
#[test]
fn secret_string_test_clone() {
    let original = SecretString::new("original");
    let cloned = original.clone();

    assert_eq!(original.expose(), cloned.expose());
    assert_eq!(original.expose(), "original");
}

/// Equality goes by content.
#[test]
fn secret_string_test_equality() {
    let secret1 = SecretString::new("secret");
    let secret2 = SecretString::new("secret");
    let secret3 = SecretString::new("different");

    assert_eq!(secret1, secret2);
    assert_ne!(secret1, secret3);
}

/// Parsing never fails and keeps the text.
#[test]
fn test_from_str() {
    let secret: SecretString = "parsed_secret".parse().unwrap();
    assert_eq!(secret.expose(), "parsed_secret");

    let secret2 = SecretString::from_str("direct_from_str").unwrap();
    assert_eq!(secret2.expose(), "direct_from_str");
}
