//! The logout workflow: a liveness check, then the deletion of the session row.
use vstd::prelude::*;
use crate::session::{current_time, is_session_active, terminate_session, lookup_active, lookup_in, table_after_delete, SessionLookup, SessionTable};

verus! {

/// A logout request.
#[derive(Debug, Clone)]
pub struct LogoutPayload {
    pub session_id: String,
}

/// What the client is told at the end of a logout.
#[derive(Debug, Clone, Copy, PartialEq, Eq, Structural)]
pub enum LogoutOutcome {
    LoggedOut,
    NotLoggedIn,
    InternalError,
}

/// The next thing a logout does.
#[derive(Debug, Clone, Copy, PartialEq, Eq, Structural)]
pub enum LogoutStep {
    /// Delete the session row, then call `finish_logout`.
    DeleteSession,
    /// Answer the client.
    Respond(LogoutOutcome),
}

pub open spec fn logout_step_spec(lookup: SessionLookup, now: i64) -> LogoutStep {
    if lookup_active(lookup, now) {
        LogoutStep::DeleteSession
    } else {
        LogoutStep::Respond(LogoutOutcome::NotLoggedIn)
    }
}

/// Acts on the store's answer for the token's expiry at time `now`: only an
/// active session is deleted; any other is refused as not logged in.
pub fn after_session_lookup(lookup: SessionLookup, now: i64) -> (r: LogoutStep)
    ensures
        r == logout_step_spec(lookup, now),
{
    if is_session_active(lookup, now) {
        LogoutStep::DeleteSession
    } else {
        LogoutStep::Respond(LogoutOutcome::NotLoggedIn)
    }
}

/// Acts on the store's answer for the token's expiry at the current time, as
/// `after_session_lookup` does.
pub fn after_session_lookup_now(lookup: SessionLookup) -> (r: LogoutStep)
    ensures
        exists|now: i64| r == logout_step_spec(lookup, now),
{
    let now = current_time();
    after_session_lookup(lookup, now)
}

/// Ends a logout once the store has answered the deletion; a failed deletion
/// is reported, not ignored.
pub fn finish_logout(deleted: bool) -> (r: LogoutOutcome)
    ensures
        deleted ==> r == LogoutOutcome::LoggedOut,
        !deleted ==> r == LogoutOutcome::InternalError,
{
    match terminate_session(deleted) {
        Ok(()) => LogoutOutcome::LoggedOut,
        Err(_) => LogoutOutcome::InternalError,
    }
}

/// After a logout has deleted the row of `token`, the session is not active,
/// a second logout of the same token deletes nothing and is refused as not
/// logged in, and the table stays as the first logout left it.
pub proof fn lemma_logout_twice(t: SessionTable, token: Seq<char>, later: i64)
    ensures
        !lookup_active(lookup_in(table_after_delete(t, token), token), later),
        logout_step_spec(lookup_in(table_after_delete(t, token), token), later) == LogoutStep::Respond(
            LogoutOutcome::NotLoggedIn,
        ),
        table_after_delete(table_after_delete(t, token), token) == table_after_delete(t, token),
{
    assert(table_after_delete(table_after_delete(t, token), token) =~= table_after_delete(t, token));
}

} // verus!
