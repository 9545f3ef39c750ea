use auth_service::credentials::{validate_email, Email, Password, User, MIN_PASSWORD_LENGTH};
use auth_service::errors::CredentialError;

fn chars(s: &str) -> Vec<char> {
    s.chars().collect()
}

#[test]
fn test_email_parse() {
    let email_str: String = "jane.doe@example.com".to_string();
    let email = Email::parse(email_str.clone());
    assert!(matches!(email, Ok(e) if e.to_str() == email_str));
}

#[test]
fn test_email_parse_empty() {
    let email = Email::parse("".to_string());
    assert!(matches!(email, Err(_)));
}

#[test]
fn test_email_parse_invalid() {
    let email = Email::parse("test".to_string());
    assert!(matches!(email, Err(_)));
}

#[test]
fn test_password_parse() {
    let password_secret: String = "correct-horse-battery".to_string();
    let parsed_password = Password::parse(password_secret.clone());
    assert!(matches!(parsed_password, Ok(p) if p.expose() == password_secret));
}

#[test]
fn test_password_parse_empty() {
    let password = Password::parse("".to_string());
    assert!(matches!(password, Err(_)));
}

#[test]
fn test_password_parse_short() {
    let password = Password::parse("short".to_string());
    assert!(matches!(password, Err(_)));
}

#[test]
fn test_user_new() {
    let email = Email::parse("test@example.com".to_string()).ok().unwrap();
    let password_str: String = "someone@example.org".to_string();
    let password = Password::parse(password_str).ok().unwrap();
    let user = User::new(email.clone(), password, false);
    assert!(user.email == email);
}

#[test]
fn test_user_new_invalid_email() {
    let email = Email::parse("invalid-email".to_string());
    assert!(matches!(email, Err(_)));
}

#[test]
fn test_user_new_empty_email() {
    let email = Email::parse("".to_string());
    assert!(matches!(email, Err(_)));
}

#[test]
fn valid_passwords_are_parsed_successfully() {
    for len in 8..30 {
        let password: String = "p".repeat(len);
        assert!(Password::parse(password).is_ok());
    }
}

#[test]
fn passwords_under_eight_bytes_are_rejected() {
    for len in 0..MIN_PASSWORD_LENGTH {
        let password: String = "p".repeat(len);
        assert!(Password::parse(password).is_err());
    }
    assert!(Password::parse("1234567".to_string()).is_err());
    assert!(Password::parse("12345678".to_string()).is_ok());
}

#[test]
fn password_length_counts_bytes() {
    // four characters, eight bytes
    assert!(Password::parse("\u{e9}\u{e9}\u{e9}\u{e9}".to_string()).is_ok());
    // seven characters, seven bytes
    assert!(Password::parse("abcdefg".to_string()).is_err());
}

#[test]
fn password_is_masked() {
    let password = Password::parse("password123".to_string()).ok().unwrap();
    assert_eq!(password.to_str(), "******");
    assert_eq!(password.expose(), "password123");
}

#[test]
fn rejected_credentials_say_why() {
    assert_eq!(Email::parse("nope".to_string()).err(), Some(CredentialError::InvalidFormat));
    assert_eq!(Email::parse(String::new()).err(), Some(CredentialError::InvalidFormat));
    assert_eq!(Password::parse("short".to_string()).err(), Some(CredentialError::TooShort));
    assert_eq!(Password::parse(String::new()).err(), Some(CredentialError::TooShort));
}

#[test]
fn email_round_trips() {
    let email = Email::parse("user@example.com".to_string()).ok().unwrap();
    assert_eq!(email.to_str(), "user@example.com");
    assert_eq!(email.as_string(), "user@example.com");
}

#[test]
fn email_equality_is_case_sensitive() {
    let lower = Email::parse("user@example.com".to_string()).ok().unwrap();
    let upper = Email::parse("User@example.com".to_string()).ok().unwrap();
    let again = Email::parse("user@example.com".to_string()).ok().unwrap();
    assert!(lower != upper);
    assert!(lower == again);
    assert!(lower.clone() == lower);
}

#[test]
fn password_equality_compares_the_secret() {
    let a = Password::parse("password123".to_string()).ok().unwrap();
    let b = Password::parse("password123".to_string()).ok().unwrap();
    let c = Password::parse("password124".to_string()).ok().unwrap();
    assert!(a == b);
    assert!(a != c);
    assert!(a.clone() == a);
}

#[test]
fn user_equality_and_clone() {
    let email = Email::parse("test@example.com".to_string()).ok().unwrap();
    let password = Password::parse("password123".to_string()).ok().unwrap();
    let user = User::new(email.clone(), password.clone(), true);
    assert!(user.clone() == user);
    assert!(user.requires_2fa);
    assert!(user.password == password);
    let other = User::new(email, password, false);
    assert!(user != other);
}

#[test]
fn email_syntax_edge_cases() {
    let accepted = [
        "user@example.com",
        "a@b.cd",
        "first.last+tag@sub.example.org",
        "x_y%z-1@host-name.io",
        "USER@EXAMPLE.COM",
        "a@b..cd",
        "a@.b.cd",
        "a@-.cd",
        "1@2.ab",
    ];
    for text in accepted {
        assert!(validate_email(&chars(text)), "{}", text);
        assert!(Email::parse(text.to_string()).is_ok(), "{}", text);
    }
    let rejected = [
        "",
        "test",
        "invalid-email",
        "@example.com",
        "user@",
        "user@example",
        "user@example.c",
        "user@.com",
        "user@example.c0m",
        "user@example.com ",
        " user@example.com",
        "user@@example.com",
        "us er@example.com",
        "user@exa_mple.com",
        "user@example.com\n",
        "user@example.com.",
        "us\u{e9}r@example.com",
        "user@example.\u{e9}\u{e9}",
        "a@b.c",
        "a@b",
        "@",
        ".",
        "a@bcd",
    ];
    for text in rejected {
        assert!(!validate_email(&chars(text)), "{:?}", text);
        assert!(Email::parse(text.to_string()).is_err(), "{:?}", text);
    }
}

#[test]
fn email_syntax_agrees_with_the_pattern() {
    let pattern = regex::Regex::new(r"^[a-zA-Z0-9._%+-]+@[a-zA-Z0-9.-]+\.[a-zA-Z]{2,}$").unwrap();
    let alphabet = ['a', 'Z', '7', '.', '@', '-', '_', '%', '+', ' ', '\n', '\u{e9}'];
    // every text of up to six characters over the alphabet, sampled by a fixed stride
    let mut index: u64 = 0;
    let mut checked = 0;
    while index < 12u64.pow(6) {
        let mut n = index;
        let len = (index % 7) as usize;
        let mut text = String::new();
        for _ in 0..len {
            text.push(alphabet[(n % 12) as usize]);
            n /= 12;
        }
        assert_eq!(validate_email(&chars(&text)), pattern.is_match(&text), "{:?}", text);
        checked += 1;
        index += 37;
    }
    assert!(checked > 80_000);
    let samples = [
        "user@example.com",
        "a@b.cd",
        "a.b@c.d.ef",
        "a@b.c-d",
        "a@b-c.de",
        "a@b.cd.e",
        "a@b.cd.ef",
        "a@b.cdef1",
        "a+b@c.de",
        "a@@b.cd",
        "a@b@c.de",
        "a@.cd",
        "a@..cd",
    ];
    for text in samples {
        assert_eq!(validate_email(&chars(text)), pattern.is_match(text), "{:?}", text);
    }
}
