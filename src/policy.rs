//! Syntactic and security rules for usernames, email addresses and passwords.
use vstd::prelude::*;
use vstd::string::{StrSliceExecFns, StringExecFns};
use vstd::utf8::is_ascii_chars;

verus! {

/// Why a registration request was rejected by the credential policy.
#[derive(Debug, Clone, Copy, PartialEq, Eq, Structural)]
pub enum RegistrationError {
    UsernameStartsWithDigit,
    UsernameStartsWithPeriod,
    UsernameContainsForbiddenCharacters,
    InvalidEmail,
    InsecurePassword,
    PasswordContainsForbiddenCharacters,
}

pub open spec fn registration_error_text(e: RegistrationError) -> Seq<char> {
    match e {
        RegistrationError::UsernameStartsWithDigit => "Username cannot start with a digit."@,
        RegistrationError::UsernameStartsWithPeriod => "Username cannot start with a period."@,
        RegistrationError::UsernameContainsForbiddenCharacters => "Username may only contain upper- and lowercase Latin letters, digits, periods and underscores, but cannot begin with a digit or period."@,
        RegistrationError::InvalidEmail => "Not a valid email address."@,
        RegistrationError::InsecurePassword => "Insecure password - password should be between 8 and 72 characters long, contain a mixture of upper- and lowercase letters, at least one number and at least one special symbol like !@#$%^&*()_+:;<>/?"@,
        RegistrationError::PasswordContainsForbiddenCharacters => "Password contains invalid characters."@,
    }
}

impl RegistrationError {
    /// The client-facing text of the error.
    pub fn message(&self) -> (r: String)
        ensures
            r@ == registration_error_text(*self),
    {
        match self {
            RegistrationError::UsernameStartsWithDigit => String::from_str(
                "Username cannot start with a digit.",
            ),
            RegistrationError::UsernameStartsWithPeriod => String::from_str(
                "Username cannot start with a period.",
            ),
            RegistrationError::UsernameContainsForbiddenCharacters => String::from_str(
                "Username may only contain upper- and lowercase Latin letters, digits, periods and underscores, but cannot begin with a digit or period.",
            ),
            RegistrationError::InvalidEmail => String::from_str("Not a valid email address."),
            RegistrationError::InsecurePassword => String::from_str(
                "Insecure password - password should be between 8 and 72 characters long, contain a mixture of upper- and lowercase letters, at least one number and at least one special symbol like !@#$%^&*()_+:;<>/?",
            ),
            RegistrationError::PasswordContainsForbiddenCharacters => String::from_str(
                "Password contains invalid characters.",
            ),
        }
    }
}

pub open spec fn is_ascii_digit(c: char) -> bool {
    '0' <= c <= '9'
}

pub open spec fn is_ascii_lower(c: char) -> bool {
    'a' <= c <= 'z'
}

pub open spec fn is_ascii_upper(c: char) -> bool {
    'A' <= c <= 'Z'
}

/// The characters a username may be made of: `[A-Za-z0-9._]`.
pub open spec fn is_username_char(c: char) -> bool {
    is_ascii_lower(c) || is_ascii_upper(c) || is_ascii_digit(c) || c == '_' || c == '.'
}

/// The special symbols of which a password needs at least one: `!@#$%^&*()_+:;<>/?`.
pub open spec fn is_password_symbol(c: char) -> bool {
    c == '!' || c == '@' || c == '#' || c == '$' || c == '%' || c == '^' || c == '&' || c == '*'
        || c == '(' || c == ')' || c == '_' || c == '+' || c == ':' || c == ';' || c == '<'
        || c == '>' || c == '/' || c == '?'
}

/// The string is non-empty and matches `[A-Za-z0-9._]+`.
pub open spec fn username_charset_ok(s: Seq<char>) -> bool {
    s.len() > 0 && forall|i: int| 0 <= i < s.len() ==> #[trigger] is_username_char(s[i])
}

/// The outcome of the username policy: character class first, then a leading
/// period, then a leading digit.
pub open spec fn username_verdict(s: Seq<char>) -> Result<(), RegistrationError> {
    if !username_charset_ok(s) {
        Err(RegistrationError::UsernameContainsForbiddenCharacters)
    } else if s[0] == '.' {
        Err(RegistrationError::UsernameStartsWithPeriod)
    } else if is_ascii_digit(s[0]) {
        Err(RegistrationError::UsernameStartsWithDigit)
    } else {
        Ok(())
    }
}

/// Some character of `s` satisfies `p`.
pub open spec fn contains_where(s: Seq<char>, p: spec_fn(char) -> bool) -> bool {
    exists|i: int| 0 <= i < s.len() && #[trigger] p(s[i])
}

pub open spec fn has_digit(s: Seq<char>) -> bool {
    contains_where(s, |c: char| is_ascii_digit(c))
}

pub open spec fn has_lower(s: Seq<char>) -> bool {
    contains_where(s, |c: char| is_ascii_lower(c))
}

pub open spec fn has_upper(s: Seq<char>) -> bool {
    contains_where(s, |c: char| is_ascii_upper(c))
}

pub open spec fn has_symbol(s: Seq<char>) -> bool {
    contains_where(s, |c: char| is_password_symbol(c))
}

proof fn lemma_contains_where_push(s: Seq<char>, c: char, p: spec_fn(char) -> bool)
    ensures
        contains_where(s.push(c), p) == (contains_where(s, p) || p(c)),
{
    let t = s.push(c);
    if contains_where(s, p) {
        let i = choose|i: int| 0 <= i < s.len() && #[trigger] p(s[i]);
        assert(t[i] == s[i]);
    }
    if p(c) {
        assert(t[s.len() as int] == c);
    }
    if contains_where(t, p) {
        let i = choose|i: int| 0 <= i < t.len() && #[trigger] p(t[i]);
        if i < s.len() {
            assert(t[i] == s[i]);
        }
    }
}

/// Between 8 and 72 characters, with a digit, a lowercase letter, an uppercase
/// letter and a special symbol.
pub open spec fn password_strong(s: Seq<char>) -> bool {
    8 <= s.len() <= 72 && has_digit(s) && has_lower(s) && has_upper(s) && has_symbol(s)
}

/// The outcome of the password policy: non-ASCII characters first, then strength.
pub open spec fn password_verdict(s: Seq<char>) -> Result<(), RegistrationError> {
    if !is_ascii_chars(s) {
        Err(RegistrationError::PasswordContainsForbiddenCharacters)
    } else if !password_strong(s) {
        Err(RegistrationError::InsecurePassword)
    } else {
        Ok(())
    }
}

/// A password of ASCII characters passes exactly when it has the right length
/// and every required class; taking away any one class makes it fail as insecure.
pub proof fn lemma_password_needs_every_class(s: Seq<char>)
    requires
        is_ascii_chars(s),
    ensures
        (password_verdict(s) is Ok) <==> (8 <= s.len() <= 72 && has_digit(s) && has_lower(s)
            && has_upper(s) && has_symbol(s)),
        !has_digit(s) ==> password_verdict(s) == Err::<(), RegistrationError>(
            RegistrationError::InsecurePassword,
        ),
        !has_lower(s) ==> password_verdict(s) == Err::<(), RegistrationError>(
            RegistrationError::InsecurePassword,
        ),
        !has_upper(s) ==> password_verdict(s) == Err::<(), RegistrationError>(
            RegistrationError::InsecurePassword,
        ),
        !has_symbol(s) ==> password_verdict(s) == Err::<(), RegistrationError>(
            RegistrationError::InsecurePassword,
        ),
{
}

/// Relies on `regex::Regex::new` and `Regex::is_match` for the pattern `^[\w.]+$`:
/// on ASCII text `\w` is `[A-Za-z0-9_]` and `$` matches only at the end of the text.
#[verifier::external_body]
fn matches_username_pattern(s: &str) -> (r: bool)
    requires
        is_ascii_chars(s@),
    ensures
        r == username_charset_ok(s@),
{
    regex::Regex::new(r"^[\w.]+$").unwrap().is_match(s)
}

/// Checks a username against the username policy.
pub fn validate_username(username: &str) -> (r: Result<(), RegistrationError>)
    ensures
        r == username_verdict(username@),
{
    if !username.is_ascii() {
        proof {
            if username_charset_ok(username@) {
                assert forall|i: int| 0 <= i < username@.len() implies '\0' <= #[trigger] username@[i]
                    <= '\u{7f}' by {
                    assert(is_username_char(username@[i]));
                }
            }
        }
        return Err(RegistrationError::UsernameContainsForbiddenCharacters);
    }
    if !matches_username_pattern(username) {
        return Err(RegistrationError::UsernameContainsForbiddenCharacters);
    }
    let first = username.get_char(0);
    if first == '.' {
        return Err(RegistrationError::UsernameStartsWithPeriod);
    }
    if '0' <= first && first <= '9' {
        return Err(RegistrationError::UsernameStartsWithDigit);
    }
    Ok(())
}

/// Whether the text is a syntactically valid email address, as decided by the
/// `email_address` crate's grammar.
pub uninterp spec fn email_address_valid(s: Seq<char>) -> bool;

/// Relies on `serde_email::is_valid_email`, which is `email_address::EmailAddress::is_valid`:
/// the verdict depends on the text alone.
#[verifier::external_body]
fn is_valid_email(s: &str) -> (r: bool)
    ensures
        r == email_address_valid(s@),
{
    serde_email::is_valid_email(s)
}

/// The outcome of the email policy, given whether the address is valid.
pub open spec fn email_verdict(valid: bool) -> Result<(), RegistrationError> {
    if valid {
        Ok(())
    } else {
        Err(RegistrationError::InvalidEmail)
    }
}

/// Checks that an email address is syntactically valid.
pub fn validate_email(email: &str) -> (r: Result<(), RegistrationError>)
    ensures
        r == email_verdict(email_address_valid(email@)),
{
    if is_valid_email(email) {
        Ok(())
    } else {
        Err(RegistrationError::InvalidEmail)
    }
}

/// Checks a password against the password policy.
pub fn validate_password(password: &str) -> (r: Result<(), RegistrationError>)
    ensures
        r == password_verdict(password@),
{
    if !password.is_ascii() {
        return Err(RegistrationError::PasswordContainsForbiddenCharacters);
    }
    let n = password.unicode_len();
    if n < 8 || n > 72 {
        return Err(RegistrationError::InsecurePassword);
    }
    let mut digit = false;
    let mut lower = false;
    let mut upper = false;
    let mut symbol = false;
    let mut i: usize = 0;
    while i < n
        invariant
            n == password@.len(),
            i <= n,
            digit == has_digit(password@.take(i as int)),
            lower == has_lower(password@.take(i as int)),
            upper == has_upper(password@.take(i as int)),
            symbol == has_symbol(password@.take(i as int)),
        decreases n - i,
    {
        let c = password.get_char(i);
        let ghost s = password@;
        let ghost k = i as int;
        proof {
            assert(s.take(k + 1) =~= s.take(k).push(c));
            lemma_contains_where_push(s.take(k), c, |c: char| is_ascii_digit(c));
            lemma_contains_where_push(s.take(k), c, |c: char| is_ascii_lower(c));
            lemma_contains_where_push(s.take(k), c, |c: char| is_ascii_upper(c));
            lemma_contains_where_push(s.take(k), c, |c: char| is_password_symbol(c));
        }
        if '0' <= c && c <= '9' {
            digit = true;
        }
        if 'a' <= c && c <= 'z' {
            lower = true;
        }
        if 'A' <= c && c <= 'Z' {
            upper = true;
        }
        if c == '!' || c == '@' || c == '#' || c == '$' || c == '%' || c == '^' || c == '&'
            || c == '*' || c == '(' || c == ')' || c == '_' || c == '+' || c == ':' || c == ';'
            || c == '<' || c == '>' || c == '/' || c == '?' {
            symbol = true;
        }
        i = i + 1;
    }
    proof {
        assert(password@.take(n as int) =~= password@);
    }
    if !(digit && lower && upper && symbol) {
        return Err(RegistrationError::InsecurePassword);
    }
    Ok(())
}

} // verus!
