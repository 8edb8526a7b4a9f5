use zero2prod::domain::{SubscriberEmail, SubscriberName};

#[test]
fn name_accepts_a_reasonable_name() {
    let name = SubscriberName::parse("Ursula Le Guin".to_string()).unwrap();
    assert_eq!(name.as_str(), "Ursula Le Guin");
}

#[test]
fn name_rejects_empty_string() {
    let r = SubscriberName::parse("".to_string());
    assert!(r.is_err());
    assert_eq!(r.unwrap_err(), " is not a valid subscriber name.");
}

#[test]
fn name_rejects_whitespace_only() {
    assert!(SubscriberName::parse("   ".to_string()).is_err());
    assert!(SubscriberName::parse("\t\n".to_string()).is_err());
    assert!(SubscriberName::parse("\u{a0}\u{2003}".to_string()).is_err());
}

#[test]
fn name_rejects_forbidden_characters() {
    for c in ['/', '(', ')', '"', '<', '>', '\\', '{', '}'] {
        let candidate = format!("Ursula{}", c);
        assert!(SubscriberName::parse(candidate).is_err());
    }
}

#[test]
fn name_rejects_control_characters() {
    assert!(SubscriberName::parse("Ursula\u{7}".to_string()).is_err());
    assert!(SubscriberName::parse("Ursula\u{7f}".to_string()).is_err());
    assert!(SubscriberName::parse("Ursula\u{9f}".to_string()).is_err());
}

#[test]
fn name_accepts_256_graphemes_and_rejects_257() {
    let ok: String = "a".repeat(256);
    assert!(SubscriberName::parse(ok).is_ok());
    let too_long: String = "a".repeat(257);
    assert!(SubscriberName::parse(too_long).is_err());
}

#[test]
fn name_length_is_counted_in_graphemes_not_chars() {
    // 256 grapheme clusters of two code points each: 512 chars in all.
    let name: String = "a\u{301}".repeat(256);
    assert_eq!(name.chars().count(), 512);
    assert!(SubscriberName::parse(name).is_ok());
    let over: String = "a\u{301}".repeat(257);
    assert!(SubscriberName::parse(over).is_err());
}

#[test]
fn email_accepts_a_valid_address() {
    let email = SubscriberEmail::parse("ursula@example.com".to_string()).unwrap();
    assert_eq!(email.as_str(), "ursula@example.com");
    assert_eq!(email.into_string(), "ursula@example.com");
}

#[test]
fn email_rejects_empty_string() {
    assert!(SubscriberEmail::parse("".to_string()).is_err());
}

#[test]
fn email_rejects_missing_at() {
    let r = SubscriberEmail::parse("not-an-email".to_string());
    assert!(r.is_err());
    assert_eq!(r.unwrap_err(), "not-an-email is not a valid subscriber email.");
}

#[test]
fn email_rejects_missing_dot_in_domain() {
    assert!(SubscriberEmail::parse("ursula@example".to_string()).is_err());
}

#[test]
fn email_rejects_empty_local_part() {
    assert!(SubscriberEmail::parse("@example.com".to_string()).is_err());
}

#[test]
fn email_rejects_leading_trailing_or_doubled_separators() {
    assert!(SubscriberEmail::parse(".ursula@example.com".to_string()).is_err());
    assert!(SubscriberEmail::parse("ursula@example.com.".to_string()).is_err());
    assert!(SubscriberEmail::parse("ursula@example..com".to_string()).is_err());
    assert!(SubscriberEmail::parse("ursula@.example.com".to_string()).is_err());
    assert!(SubscriberEmail::parse("ursula.@example.com".to_string()).is_err());
    assert!(SubscriberEmail::parse("ursula@@example.com".to_string()).is_err());
}

#[test]
fn email_rejects_two_ats() {
    assert!(SubscriberEmail::parse("ursula@ex@ample.com".to_string()).is_err());
}

#[test]
fn email_duplicate_copies_the_address() {
    let email = SubscriberEmail::parse("ursula@example.com".to_string()).unwrap();
    let copy = email.duplicate();
    assert_eq!(copy.as_str(), email.as_str());
}
