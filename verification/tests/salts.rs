use password_batch::salt::{Salt, FRESH_SALT_CHARS, MAX_SALT_CHARS, MIN_SALT_CHARS};

#[test]
fn parse_keeps_a_salt_text() {
    let salt = Salt::parse("c29tZXNhbHRzb21lc2FsdA").unwrap();
    assert_eq!(salt.as_str(), "c29tZXNhbHRzb21lc2FsdA");
    assert_eq!(Salt::parse("ab+/.-09AZ").unwrap().as_str(), "ab+/.-09AZ");
}

#[test]
fn parse_holds_the_length_limits() {
    assert_eq!((MIN_SALT_CHARS, MAX_SALT_CHARS), (4, 64));
    assert!(Salt::parse("").is_none());
    assert!(Salt::parse("abc").is_none());
    assert!(Salt::parse("abcd").is_some());
    assert!(Salt::parse(&"a".repeat(64)).is_some());
    assert!(Salt::parse(&"a".repeat(65)).is_none());
}

#[test]
fn parse_refuses_other_characters() {
    assert!(Salt::parse("abcd$efg").is_none());
    assert!(Salt::parse("abcd_efg").is_none());
    assert!(Salt::parse("abcd efg").is_none());
    assert!(Salt::parse("abcd,efg").is_none());
    assert!(Salt::parse("abcd=").is_none());
    assert!(Salt::parse("abc\u{e9}").is_none());
    for c in ['@', '[', '`', '{', ':', '\\', '*', '\0'] {
        assert!(Salt::parse(&format!("abcd{}", c)).is_none());
    }
    for c in ['a', 'z', 'A', 'Z', '0', '9', '+', '/', '.', '-'] {
        assert!(Salt::parse(&format!("abcd{}", c)).is_some());
    }
}

#[test]
fn fresh_salt_is_base64_of_sixteen_bytes() {
    assert_eq!(FRESH_SALT_CHARS, 22);
    for _ in 0..50 {
        let salt = Salt::generate();
        let text = salt.as_str();
        assert_eq!(text.len(), 22);
        assert!(text.chars().all(|c| c.is_ascii_alphanumeric() || c == '+' || c == '/'));
    }
}

#[test]
fn fresh_salts_differ() {
    let a = Salt::generate();
    let b = Salt::generate();
    assert_ne!(a.as_str(), b.as_str());
}
