use auth_backend::policy::{validate_email, validate_password, validate_username, RegistrationError};
use auth_backend::register::{
    check_registration, registration_outcome, validate_registration, RegisterOutcome,
    RegisterPayload, UserInsert,
};

fn payload(username: &str, email: &str, password: &str) -> RegisterPayload {
    RegisterPayload {
        username: username.to_string(),
        email: email.to_string(),
        password: password.to_string(),
        first_name: "Alice".to_string(),
        last_name: "Liddell".to_string(),
    }
}

#[test]
fn username_accepts_letters_digits_period_underscore() {
    assert_eq!(validate_username("alice1"), Ok(()));
    assert_eq!(validate_username("a.b_c.D9"), Ok(()));
    assert_eq!(validate_username("_x"), Ok(()));
    assert_eq!(validate_username("Z"), Ok(()));
}

#[test]
fn username_forbidden_characters() {
    for u in ["", "al ice", "a-b", "bob!", "\u{e9}mile", "line\n", "tab\t"] {
        assert_eq!(validate_username(u), Err(RegistrationError::UsernameContainsForbiddenCharacters), "{u:?}");
    }
}

#[test]
fn username_leading_period_and_digit() {
    assert_eq!(validate_username(".alice"), Err(RegistrationError::UsernameStartsWithPeriod));
    assert_eq!(validate_username("1alice"), Err(RegistrationError::UsernameStartsWithDigit));
    assert_eq!(validate_username("9"), Err(RegistrationError::UsernameStartsWithDigit));
}

#[test]
fn username_first_violated_rule_wins() {
    assert_eq!(validate_username(".1a"), Err(RegistrationError::UsernameStartsWithPeriod));
    assert_eq!(validate_username(".a-b"), Err(RegistrationError::UsernameContainsForbiddenCharacters));
    assert_eq!(validate_username("1 a"), Err(RegistrationError::UsernameContainsForbiddenCharacters));
}

#[test]
fn password_strong_accepted() {
    assert_eq!(validate_password("Sup3r!Secret"), Ok(()));
    assert_eq!(validate_password("aB3?xxxx"), Ok(()));
    let longest = format!("aB3?{}", "x".repeat(68));
    assert_eq!(longest.len(), 72);
    assert_eq!(validate_password(&longest), Ok(()));
}

#[test]
fn password_missing_any_class_fails() {
    for p in ["sup3r!secret", "SUP3R!SECRET", "Super!Secret", "Sup3rSecret1", "Sup3r-Secret"] {
        assert_eq!(validate_password(p), Err(RegistrationError::InsecurePassword), "{p:?}");
    }
}

#[test]
fn password_length_bounds() {
    assert_eq!(validate_password("aB3?xxx"), Err(RegistrationError::InsecurePassword));
    let too_long = format!("aB3?{}", "x".repeat(69));
    assert_eq!(too_long.len(), 73);
    assert_eq!(validate_password(&too_long), Err(RegistrationError::InsecurePassword));
    assert_eq!(validate_password(""), Err(RegistrationError::InsecurePassword));
}

#[test]
fn password_non_ascii_is_forbidden_first() {
    assert_eq!(validate_password("Sup3r!Secr\u{e9}t"), Err(RegistrationError::PasswordContainsForbiddenCharacters));
    assert_eq!(validate_password("\u{e9}"), Err(RegistrationError::PasswordContainsForbiddenCharacters));
}

#[test]
fn email_validity() {
    assert_eq!(validate_email("a@b.com"), Ok(()));
    assert_eq!(validate_email("alice@example.org"), Ok(()));
    assert_eq!(validate_email("not-an-email"), Err(RegistrationError::InvalidEmail));
    assert_eq!(validate_email(""), Err(RegistrationError::InvalidEmail));
    assert_eq!(validate_email("a@"), Err(RegistrationError::InvalidEmail));
}

#[test]
fn registration_checks_in_order() {
    let p = payload("1alice", "bad", "weak");
    assert_eq!(check_registration(&p, false), Err(RegistrationError::UsernameStartsWithDigit));
    let p = payload("alice1", "bad", "weak");
    assert_eq!(check_registration(&p, false), Err(RegistrationError::InvalidEmail));
    assert_eq!(check_registration(&p, true), Err(RegistrationError::InsecurePassword));
    let p = payload("alice1", "a@b.com", "Sup3r!Secret");
    assert_eq!(check_registration(&p, true), Ok(()));
    assert_eq!(check_registration(&p, false), Err(RegistrationError::InvalidEmail));
}

#[test]
fn registration_validation_end_to_end() {
    assert_eq!(validate_registration(&payload("alice1", "a@b.com", "Sup3r!Secret")), Ok(()));
    assert_eq!(validate_registration(&payload("alice1", "nope", "Sup3r!Secret")), Err(RegistrationError::InvalidEmail));
    assert_eq!(validate_registration(&payload(".alice", "nope", "x")), Err(RegistrationError::UsernameStartsWithPeriod));
}

#[test]
fn registering_twice_is_a_conflict() {
    // The store accepts the first insertion and reports a unique violation on the second.
    let p = payload("alice1", "a@b.com", "Sup3r!Secret");
    assert_eq!(validate_registration(&p), Ok(()));
    assert_eq!(registration_outcome(UserInsert::Inserted), RegisterOutcome::Created);
    assert_eq!(validate_registration(&p), Ok(()));
    assert_eq!(registration_outcome(UserInsert::UniqueViolation), RegisterOutcome::DuplicateUser);
    assert_eq!(registration_outcome(UserInsert::Failed), RegisterOutcome::InternalError);
}

#[test]
fn registration_error_messages() {
    assert_eq!(RegistrationError::InvalidEmail.message(), "Not a valid email address.");
    assert_eq!(RegistrationError::UsernameStartsWithDigit.message(), "Username cannot start with a digit.");
    assert_eq!(RegistrationError::PasswordContainsForbiddenCharacters.message(), "Password contains invalid characters.");
    assert!(RegistrationError::InsecurePassword.message().ends_with("!@#$%^&*()_+:;<>/?"));
}
