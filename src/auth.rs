//! Errors of the authentication routes as a whole.
use vstd::prelude::*;
use vstd::string::StringExecFns;

verus! {

/// A failure of an authentication route.
#[derive(Debug, Clone)]
pub enum AuthError {
    LoginNotFound,
    RegistrationFailed,
    /// A failure described by its own text.
    Other(String),
}

pub open spec fn auth_error_text(e: AuthError) -> Seq<char> {
    match e {
        AuthError::Other(s) => s@,
        _ => "UNHANDLED_ERROR"@,
    }
}

impl AuthError {
    /// The client-facing text of the error: its own text for `Other`, a
    /// generic one otherwise.
    pub fn message(&self) -> (r: String)
        ensures
            r@ == auth_error_text(*self),
    {
        match self {
            AuthError::Other(s) => s.clone(),
            _ => String::from_str("UNHANDLED_ERROR"),
        }
    }
}

} // verus!
