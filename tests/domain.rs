use auth_service::email::Email;
use auth_service::error::ParseError;
use auth_service::password::{password_has_required_length, Password};
use auth_service::two_fa::{six_digit_text, LoginAttemptId, TwoFACode};

#[test]
fn empty_string_is_rejected() {
    let email = "".to_string();
    assert!(Email::parse(email).is_err());
}

#[test]
fn email_missing_at_symbol_is_rejected() {
    let email = "ursuladomain.com".to_string();
    assert!(Email::parse(email).is_err());
}

#[test]
fn email_missing_subject_is_rejected() {
    let email = "@domain.com".to_string();
    assert!(Email::parse(email).is_err());
}

#[test]
fn should_be_able_to_convert_a_borrowed_email_to_str() {
    let valid_email = "ursula.le.guin@earthsea.org".to_string();
    let email = Email::parse(valid_email.clone()).unwrap();
    let email_str = email.as_str();

    assert_eq!(&valid_email, email_str);
}

#[test]
fn valid_emails_are_parsed_successfully() {
    for valid in ["alice@test.com", "test@example.com", "a.b+c@sub.domain.org"] {
        assert!(Email::parse(valid.to_string()).is_ok(), "{}", valid);
    }
}

#[test]
fn invalid_email_gives_its_error_variant() {
    assert_eq!(Email::parse("invalid_email.com".to_string()).unwrap_err(), ParseError::InvalidEmail);
}

#[test]
fn valid_password_should_return_result() {
    let valid_password = "abcDEF123".to_string();

    assert!(Password::parse(valid_password).is_ok());
}

#[test]
fn invalid_password_should_return_error() {
    let invalid_password = "ABCDEF123".to_string(); // Misses lowercases
    assert!(Password::parse(invalid_password).is_err());

    let invalid_password = "abcdef123".to_string(); // Misses uppercases
    assert!(Password::parse(invalid_password).is_err());

    let invalid_password = "abcdEFGH".to_string(); // Misses numbers
    assert!(Password::parse(invalid_password).is_err());
}

#[test]
fn should_be_able_to_convert_a_borrowed_password_to_str() {
    let valid_password = "abcDEF123".to_string();
    let password = Password::parse(valid_password.clone()).expect("Couldn't parse password");
    let password_str = password.expose_secret();

    assert_eq!(valid_password.as_str(), password_str);
}

#[test]
fn password_length_counts_more_than_eight_bytes() {
    assert!(!password_has_required_length("abcDEF12"));
    assert!(password_has_required_length("abcDEF123"));
    assert_eq!(Password::parse("abcDEF12".to_string()).err(), Some(ParseError::InvalidPassword));
}

#[test]
fn login_attempt_id_parse_keeps_the_canonical_form() {
    let id = LoginAttemptId::parse("550E8400-E29B-41D4-A716-446655440000".to_string()).unwrap();
    assert_eq!(id.as_str(), "550e8400-e29b-41d4-a716-446655440000");
    assert_eq!(
        LoginAttemptId::parse("not-a-uuid".to_string()).unwrap_err(),
        ParseError::InvalidLoginAttemptId
    );
}

#[test]
fn fresh_login_attempt_ids_are_uuids() {
    let id = LoginAttemptId::default();
    assert_eq!(id.as_str().len(), 36);
    assert!(LoginAttemptId::parse(id.as_str().to_string()).is_ok());
}

#[test]
fn two_fa_code_parse_accepts_six_digits_only() {
    assert!(TwoFACode::parse("123456".to_string()).is_ok());
    assert_eq!(TwoFACode::parse("1234".to_string()).err().unwrap(), ParseError::InvalidTwoFACode);
    assert!(TwoFACode::parse("12a456".to_string()).is_err());
    assert!(TwoFACode::parse("123456\n7".to_string()).is_err());
    assert!(TwoFACode::parse("x\n123456".to_string()).is_err());
    assert!(TwoFACode::parse("1234567".to_string()).is_err());
    assert!(TwoFACode::parse("١٢٣٤٥٦".to_string()).is_err());
}

#[test]
fn fresh_two_fa_codes_have_six_digits() {
    for _ in 0..20 {
        let code = TwoFACode::default();
        let text = code.expose_secret();
        assert_eq!(text.len(), 6);
        assert!(text.chars().all(|c| c.is_ascii_digit()));
        assert_ne!(text.as_bytes()[0], b'0');
        assert!(TwoFACode::parse(text.to_string()).is_ok());
    }
}

#[test]
fn six_digit_text_writes_decimal() {
    assert_eq!(six_digit_text(100000), "100000");
    assert_eq!(six_digit_text(987654), "987654");
    assert_eq!(six_digit_text(999999), "999999");
    assert_eq!(TwoFACode::from_number(402913).expose_secret(), "402913");
}
