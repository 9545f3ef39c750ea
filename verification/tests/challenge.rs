use auth_service::challenge::{LoginAttemptId, TwoFACode, CODE_MAX, CODE_MIN};

#[test]
fn login_attempt_id_parses_canonical_text() {
    let text = "550e8400-e29b-41d4-a716-446655440000";
    let id = LoginAttemptId::parse(text.to_string()).ok().unwrap();
    assert_eq!(id.as_str(), text);
}

#[test]
fn login_attempt_id_is_kept_in_canonical_text() {
    let canonical = "550e8400-e29b-41d4-a716-446655440000";
    let upper = LoginAttemptId::parse("550E8400-E29B-41D4-A716-446655440000".to_string());
    assert_eq!(upper.ok().unwrap().as_str(), canonical);
    let simple = LoginAttemptId::parse("550e8400e29b41d4a716446655440000".to_string());
    assert_eq!(simple.ok().unwrap().as_str(), canonical);
    let braced = LoginAttemptId::parse("{550e8400-e29b-41d4-a716-446655440000}".to_string());
    assert_eq!(braced.ok().unwrap().as_str(), canonical);
    let urn = LoginAttemptId::parse("urn:uuid:550e8400-e29b-41d4-a716-446655440000".to_string());
    assert_eq!(urn.ok().unwrap().as_str(), canonical);
}

#[test]
fn login_attempt_id_rejects_other_text() {
    for text in ["", "123456", "not-a-uuid", "550e8400-e29b-41d4-a716-44665544000", "550e8400-e29b-41d4-a716-44665544000g"] {
        let r = LoginAttemptId::parse(text.to_string());
        assert_eq!(r.err(), Some(format!("Invalid UUID: {}", text)));
    }
}

#[test]
fn login_attempt_id_nil_is_accepted() {
    let id = LoginAttemptId::parse("00000000-0000-0000-0000-000000000000".to_string());
    assert!(id.is_ok());
}

#[test]
fn generated_login_attempt_id_reads_back() {
    for _ in 0..50 {
        let id = LoginAttemptId::default();
        let text = id.as_str().to_string();
        assert_eq!(text.len(), 36);
        for (i, c) in text.chars().enumerate() {
            if i == 8 || i == 13 || i == 18 || i == 23 {
                assert_eq!(c, '-');
            } else {
                assert!(c.is_ascii_digit() || ('a'..='f').contains(&c));
            }
        }
        assert_eq!(text.chars().nth(14), Some('4'));
        assert!(matches!(text.chars().nth(19), Some('8' | '9' | 'a' | 'b')));
        let again = LoginAttemptId::parse(text).ok().unwrap();
        assert!(again == id);
        assert!(id.clone() == id);
    }
}

#[test]
fn generated_login_attempt_ids_differ() {
    let a = LoginAttemptId::generate();
    let b = LoginAttemptId::generate();
    assert!(a != b);
}

#[test]
fn two_fa_code_parses_six_digits() {
    for text in ["123456", "000000", "999999", "100000", "012345"] {
        let code = TwoFACode::parse(text.to_string()).ok().unwrap();
        assert_eq!(code.as_str(), text);
    }
}

#[test]
fn two_fa_code_rejects_other_text() {
    for text in ["", "123", "12345", "1234567", "12345a", "abcdef", "+12345", " 12345", "12345 ", "１２３４５６", "12\u{e9}45"] {
        let r = TwoFACode::parse(text.to_string());
        assert_eq!(r.err(), Some(format!("Invalid 2FA code: {}", text)), "{:?}", text);
    }
}

#[test]
fn two_fa_code_from_number_writes_its_digits() {
    assert_eq!(TwoFACode::from_number(100_000).as_str(), "100000");
    assert_eq!(TwoFACode::from_number(999_999).as_str(), "999999");
    assert_eq!(TwoFACode::from_number(834_629).as_str(), "834629");
    assert_eq!(TwoFACode::from_number(120_045).as_str(), "120045");
    assert_eq!(CODE_MIN, 100_000);
    assert_eq!(CODE_MAX, 999_999);
}

#[test]
fn generated_two_fa_code_is_in_range() {
    let mut seen_different = false;
    let first = TwoFACode::default();
    for _ in 0..200 {
        let code = TwoFACode::default();
        let text = code.as_str().to_string();
        assert_eq!(text.len(), 6);
        let n: u32 = text.parse().unwrap();
        assert!((100_000..=999_999).contains(&n));
        assert!(TwoFACode::parse(text).ok().unwrap() == code);
        if code != first {
            seen_different = true;
        }
    }
    assert!(seen_different);
}
