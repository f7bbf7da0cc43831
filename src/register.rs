//! The registration workflow: username, email and password checks in that
//! order, then the insertion of the user by the store.
use vstd::prelude::*;
use crate::policy::{
    email_address_valid, password_verdict, username_verdict, validate_email, validate_password,
    validate_username, RegistrationError,
};

verus! {

/// A registration request.
#[derive(Debug, Clone)]
pub struct RegisterPayload {
    pub username: String,
    pub email: String,
    pub password: String,
    pub first_name: String,
    pub last_name: String,
}

/// The outcome of the policy checks: the first rule broken, username before
/// email before password.
pub open spec fn registration_verdict(username: Seq<char>, email_valid: bool, password: Seq<char>) -> Result<
    (),
    RegistrationError,
> {
    if username_verdict(username) is Err {
        username_verdict(username)
    } else if !email_valid {
        Err(RegistrationError::InvalidEmail)
    } else {
        password_verdict(password)
    }
}

/// Runs the policy checks on a request, given whether its email address is valid.
pub fn check_registration(payload: &RegisterPayload, email_valid: bool) -> (r: Result<
    (),
    RegistrationError,
>)
    ensures
        r == registration_verdict(payload.username@, email_valid, payload.password@),
{
    let u = validate_username(payload.username.as_str());
    if u.is_err() {
        return u;
    }
    if !email_valid {
        return Err(RegistrationError::InvalidEmail);
    }
    validate_password(payload.password.as_str())
}

/// Runs the policy checks on a request.
pub fn validate_registration(payload: &RegisterPayload) -> (r: Result<(), RegistrationError>)
    ensures
        r == registration_verdict(
            payload.username@,
            email_address_valid(payload.email@),
            payload.password@,
        ),
{
    let email_valid = validate_email(payload.email.as_str()).is_ok();
    check_registration(payload, email_valid)
}

/// What the store answered to the insertion of a new user.
#[derive(Debug, Clone, Copy, PartialEq, Eq, Structural)]
pub enum UserInsert {
    Inserted,
    /// The username or the email is already taken.
    UniqueViolation,
    /// Any other failure of the store.
    Failed,
}

/// What the client is told at the end of a registration.
#[derive(Debug, Clone, Copy, PartialEq, Eq, Structural)]
pub enum RegisterOutcome {
    Created,
    /// The username or the email is taken; which one is not told.
    DuplicateUser,
    Invalid(RegistrationError),
    InternalError,
}

pub open spec fn insert_outcome(insert: UserInsert) -> RegisterOutcome {
    match insert {
        UserInsert::Inserted => RegisterOutcome::Created,
        UserInsert::UniqueViolation => RegisterOutcome::DuplicateUser,
        UserInsert::Failed => RegisterOutcome::InternalError,
    }
}

/// Ends a registration once the store has answered the insertion.
pub fn registration_outcome(insert: UserInsert) -> (r: RegisterOutcome)
    ensures
        r == insert_outcome(insert),
{
    match insert {
        UserInsert::Inserted => RegisterOutcome::Created,
        UserInsert::UniqueViolation => RegisterOutcome::DuplicateUser,
        UserInsert::Failed => RegisterOutcome::InternalError,
    }
}

/// The usernames and emails the store's user table holds.
pub struct UserTable {
    pub usernames: Set<Seq<char>>,
    pub emails: Set<Seq<char>>,
}

/// The answer of a store whose username and email columns are unique.
pub open spec fn insert_answer(t: UserTable, username: Seq<char>, email: Seq<char>) -> UserInsert {
    if t.usernames.contains(username) || t.emails.contains(email) {
        UserInsert::UniqueViolation
    } else {
        UserInsert::Inserted
    }
}

pub open spec fn users_after_insert(t: UserTable, username: Seq<char>, email: Seq<char>) -> UserTable {
    if insert_answer(t, username, email) is Inserted {
        UserTable { usernames: t.usernames.insert(username), emails: t.emails.insert(email) }
    } else {
        t
    }
}

/// A whole registration against such a store: the policy checks, then, if they
/// pass, the insertion.
pub open spec fn register_against(t: UserTable, username: Seq<char>, email: Seq<char>, email_valid: bool, password: Seq<char>) -> (RegisterOutcome, UserTable) {
    match registration_verdict(username, email_valid, password) {
        Err(e) => (RegisterOutcome::Invalid(e), t),
        Ok(()) => (insert_outcome(insert_answer(t, username, email)), users_after_insert(t, username, email)),
    }
}

/// Registering the same valid request twice creates the user once: the first
/// registration is `Created`; the second, and any later valid request with the
/// same username, is `DuplicateUser` and changes nothing.
pub proof fn lemma_register_twice(
    t: UserTable,
    username: Seq<char>,
    email: Seq<char>,
    email_valid: bool,
    password: Seq<char>,
    email2: Seq<char>,
    email2_valid: bool,
    password2: Seq<char>,
)
    requires
        registration_verdict(username, email_valid, password) is Ok,
        registration_verdict(username, email2_valid, password2) is Ok,
        !t.usernames.contains(username),
        !t.emails.contains(email),
    ensures
        register_against(t, username, email, email_valid, password).0 == RegisterOutcome::Created,
        register_against(
            register_against(t, username, email, email_valid, password).1,
            username,
            email,
            email_valid,
            password,
        ) == (RegisterOutcome::DuplicateUser, register_against(t, username, email, email_valid, password).1),
        register_against(
            register_against(t, username, email, email_valid, password).1,
            username,
            email2,
            email2_valid,
            password2,
        ) == (RegisterOutcome::DuplicateUser, register_against(t, username, email, email_valid, password).1),
{
}

} // verus!
