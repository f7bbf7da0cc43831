//! The login workflow: a presence check, the store's credential check, then a
//! fresh session row to store.
use vstd::prelude::*;
use vstd::string::StringExecFns;
use crate::session::{
    create_session, current_time, session_write_result, lookup_active, lookup_in, opened_at, table_after_insert, SessionRecord,
    SessionTable, LATEST_SESSION_START,
};
use crate::token::is_session_id;

verus! {

/// A login request.
#[derive(Debug, Clone)]
pub struct LoginPayload {
    pub username: String,
    pub password: String,
}

/// Why a login request was refused.
#[derive(Debug, Clone, Copy, PartialEq, Eq, Structural)]
pub enum LoginError {
    UsernameEmpty,
    PasswordEmpty,
    InvalidCredentials,
}

pub open spec fn login_error_text(e: LoginError) -> Seq<char> {
    match e {
        LoginError::UsernameEmpty => "Username cannot be empty."@,
        LoginError::PasswordEmpty => "Password cannot be empty."@,
        LoginError::InvalidCredentials => "Invalid username or password."@,
    }
}

impl LoginError {
    /// The client-facing text of the error.
    pub fn message(&self) -> (r: String)
        ensures
            r@ == login_error_text(*self),
    {
        match self {
            LoginError::UsernameEmpty => String::from_str("Username cannot be empty."),
            LoginError::PasswordEmpty => String::from_str("Password cannot be empty."),
            LoginError::InvalidCredentials => String::from_str("Invalid username or password."),
        }
    }
}

/// The presence check of a login request: both fields non-empty, the username
/// checked first.
pub open spec fn login_payload_verdict(username: Seq<char>, password: Seq<char>) -> Result<(), LoginError> {
    if username.len() == 0 {
        Err(LoginError::UsernameEmpty)
    } else if password.len() == 0 {
        Err(LoginError::PasswordEmpty)
    } else {
        Ok(())
    }
}

/// Rejects a login request whose username or password is empty.
pub fn check_login_payload(payload: &LoginPayload) -> (r: Result<(), LoginError>)
    ensures
        r == login_payload_verdict(payload.username@, payload.password@),
{
    if payload.username.as_str().is_empty() {
        return Err(LoginError::UsernameEmpty);
    }
    if payload.password.as_str().is_empty() {
        return Err(LoginError::PasswordEmpty);
    }
    Ok(())
}

/// What the store answered when asked for the user with the given username
/// and password.
#[derive(Debug, Clone, Copy, PartialEq, Eq, Structural)]
pub enum CredentialLookup {
    /// A user matched; this is its id.
    Matched(i64),
    /// No user matched: unknown username or wrong password.
    NoMatch,
    /// The store failed.
    StoreFailed,
    /// A row matched but its id could not be read.
    Unreadable,
}

/// What the client is told at the end of a login.
#[derive(Debug, Clone)]
pub enum LoginOutcome {
    /// The session token of the new session.
    LoggedIn(String),
    Rejected(LoginError),
    InternalError,
}

/// The next thing a login does.
#[derive(Debug, Clone)]
pub enum LoginStep {
    /// Store this session row, then call `finish_login`.
    StoreSession(SessionRecord),
    /// Answer the client.
    Respond(LoginOutcome),
}

/// What may follow the credential check at time `now`; for a matched user it
/// depends on the token drawn for the new session, or on the failure to draw one.
pub open spec fn login_step_spec(lookup: CredentialLookup, step: LoginStep, now: i64) -> bool {
    match lookup {
        CredentialLookup::Matched(user_id) => match step {
            LoginStep::StoreSession(s) => now <= LATEST_SESSION_START && opened_at(s, user_id, now)
                && is_session_id(s.session_id@),
            LoginStep::Respond(o) => o is InternalError,
        },
        CredentialLookup::NoMatch | CredentialLookup::StoreFailed => step == LoginStep::Respond(
            LoginOutcome::Rejected(LoginError::InvalidCredentials),
        ),
        CredentialLookup::Unreadable => step == LoginStep::Respond(LoginOutcome::InternalError),
    }
}

/// Acts on the store's credential check at time `now`: a matched user gets a
/// fresh session row to store; no match and a store failure are both refused
/// as invalid credentials; an unreadable row is an internal error, as are a
/// failure of the secure source and an expiry time that an `i64` cannot hold.
pub fn after_credentials(lookup: CredentialLookup, rng: &ring::rand::SystemRandom, now: i64) -> (r: LoginStep)
    ensures
        login_step_spec(lookup, r, now),
{
    match lookup {
        CredentialLookup::Matched(user_id) => {
            if now > LATEST_SESSION_START {
                return LoginStep::Respond(LoginOutcome::InternalError);
            }
            match create_session(user_id, rng, now) {
                Ok(s) => LoginStep::StoreSession(s),
                Err(_) => LoginStep::Respond(LoginOutcome::InternalError),
            }
        },
        CredentialLookup::NoMatch => LoginStep::Respond(
            LoginOutcome::Rejected(LoginError::InvalidCredentials),
        ),
        CredentialLookup::StoreFailed => LoginStep::Respond(
            LoginOutcome::Rejected(LoginError::InvalidCredentials),
        ),
        CredentialLookup::Unreadable => LoginStep::Respond(LoginOutcome::InternalError),
    }
}

/// Acts on the store's credential check at the current time, as
/// `after_credentials` does.
pub fn after_credentials_now(lookup: CredentialLookup, rng: &ring::rand::SystemRandom) -> (r: LoginStep)
    ensures
        exists|now: i64| login_step_spec(lookup, r, now),
{
    let now = current_time();
    after_credentials(lookup, rng, now)
}

/// Ends a login once the store has answered the write of the session row: the
/// client gets the token if the row was stored, else an internal error and the
/// token is dropped.
pub fn finish_login(session: SessionRecord, stored: bool) -> (r: LoginOutcome)
    ensures
        stored ==> (r matches LoginOutcome::LoggedIn(t) && t@ == session.session_id@),
        !stored ==> r is InternalError,
{
    match session_write_result(stored) {
        Ok(()) => LoginOutcome::LoggedIn(session.session_id),
        Err(_) => LoginOutcome::InternalError,
    }
}

/// A login that matched a user stores a session that is active right after;
/// a token that the table never held is not active at any time.
pub proof fn lemma_login_then_active(
    t: SessionTable,
    user_id: i64,
    s: SessionRecord,
    now: i64,
    other: Seq<char>,
    at: i64,
)
    requires
        login_step_spec(CredentialLookup::Matched(user_id), LoginStep::StoreSession(s), now),
        !t.contains_key(other),
    ensures
        lookup_active(lookup_in(table_after_insert(t, s), s.session_id@), now),
        !lookup_active(lookup_in(t, other), at),
{
}

} // verus!
