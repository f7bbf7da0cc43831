//! Session records, liveness and termination, and the laws that tie them to
//! the session table of the store.
use vstd::prelude::*;
use vstd::string::StringExecFns;
use crate::token::{generate_session_id, is_session_id};

verus! {

/// Why a session could not be issued or ended.
#[derive(Debug, Clone, Copy, PartialEq, Eq, Structural)]
pub enum SessionError {
    FailedToGenerateSessionID,
    SessionCreationFailed,
    SessionTerminationFailed,
}

impl SessionError {
    /// The client-facing text of the error.
    pub fn message(&self) -> (r: String)
        ensures
            r@ == session_error_text(*self),
    {
        match self {
            SessionError::FailedToGenerateSessionID => String::from_str(
                "Failed to generate a session ID.",
            ),
            SessionError::SessionCreationFailed => String::from_str("Failed to create session."),
            SessionError::SessionTerminationFailed => String::from_str(
                "Failed to terminate session",
            ),
        }
    }
}

pub open spec fn session_error_text(e: SessionError) -> Seq<char> {
    match e {
        SessionError::FailedToGenerateSessionID => "Failed to generate a session ID."@,
        SessionError::SessionCreationFailed => "Failed to create session."@,
        SessionError::SessionTerminationFailed => "Failed to terminate session"@,
    }
}

/// How long a session lives: one hour, in microseconds.
pub const SESSION_TTL: i64 = 3600000000;

/// The latest start time for which the expiry of a session is representable.
pub const LATEST_SESSION_START: i64 = 0x7fff_ffff_ffff_ffff - 3600000000;

/// A session row: its owner, its token and its lifetime, in microseconds
/// since the Unix epoch.
#[derive(Debug, Clone)]
pub struct SessionRecord {
    pub user_id: i64,
    pub session_id: String,
    pub created_at: i64,
    pub expires_at: i64,
}

/// The session `r` was opened for `user_id` at `now`, for one hour.
pub open spec fn opened_at(r: SessionRecord, user_id: i64, now: i64) -> bool {
    &&& r.user_id == user_id
    &&& r.created_at == now
    &&& r.expires_at == now + SESSION_TTL
}

/// The session row with the token `session_id`, opened for `user_id` at `now`.
pub fn session_from_id(user_id: i64, session_id: String, now: i64) -> (r: SessionRecord)
    requires
        now <= LATEST_SESSION_START,
    ensures
        opened_at(r, user_id, now),
        r.session_id@ == session_id@,
{
    SessionRecord { user_id, session_id, created_at: now, expires_at: now + SESSION_TTL }
}

/// Draws a fresh token and builds the session row for `user_id` opened at
/// `now`; the row is then to be stored.
pub fn create_session(user_id: i64, rng: &ring::rand::SystemRandom, now: i64) -> (r: Result<
    SessionRecord,
    SessionError,
>)
    requires
        now <= LATEST_SESSION_START,
    ensures
        r matches Ok(s) ==> opened_at(s, user_id, now) && is_session_id(s.session_id@),
        r matches Err(e) ==> e == SessionError::FailedToGenerateSessionID,
{
    match generate_session_id(rng) {
        Ok(t) => Ok(session_from_id(user_id, t, now)),
        Err(e) => Err(e),
    }
}

/// What the store answered when asked for the expiry of a token.
#[derive(Debug, Clone, Copy, PartialEq, Eq, Structural)]
pub enum SessionLookup {
    /// A row exists; it expires at this time.
    Found(i64),
    /// No row holds the token.
    Missing,
    /// The store failed, or the row could not be read.
    Failed,
}

/// A session is active iff its row exists and `now` is before its expiry.
pub open spec fn lookup_active(lookup: SessionLookup, now: i64) -> bool {
    match lookup {
        SessionLookup::Found(expires_at) => now < expires_at,
        _ => false,
    }
}

/// Decides from the store's answer whether the session is active at `now`;
/// a missing row or a store failure reads as not active.
pub fn is_session_active(lookup: SessionLookup, now: i64) -> (r: bool)
    ensures
        r == lookup_active(lookup, now),
{
    match lookup {
        SessionLookup::Found(expires_at) => now < expires_at,
        SessionLookup::Missing => false,
        SessionLookup::Failed => false,
    }
}

/// Relies on chrono's `From<SystemTime> for DateTime<Utc>` and
/// `DateTime::timestamp_micros`: the current time in microseconds since the Unix
/// epoch, negative for a clock set before 1970. Nothing is known of its value.
#[verifier::external_body]
pub(crate) fn current_time() -> (r: i64) {
    chrono::DateTime::<chrono::Utc>::from(std::time::SystemTime::now()).timestamp_micros()
}

/// Maps the store's answer to the write of a new session row.
pub fn session_write_result(stored: bool) -> (r: Result<(), SessionError>)
    ensures
        stored <==> r is Ok,
        r matches Err(e) ==> e == SessionError::SessionCreationFailed,
{
    if stored {
        Ok(())
    } else {
        Err(SessionError::SessionCreationFailed)
    }
}

/// Maps the store's answer to the deletion of a session row.
pub fn terminate_session(deleted: bool) -> (r: Result<(), SessionError>)
    ensures
        deleted <==> r is Ok,
        r matches Err(e) ==> e == SessionError::SessionTerminationFailed,
{
    if deleted {
        Ok(())
    } else {
        Err(SessionError::SessionTerminationFailed)
    }
}

/// The store's session table: the expiry of each stored token.
pub type SessionTable = Map<Seq<char>, i64>;

/// The table after the row `r` is stored.
pub open spec fn table_after_insert(t: SessionTable, r: SessionRecord) -> SessionTable {
    t.insert(r.session_id@, r.expires_at)
}

/// The table after the row of `token` is deleted; no row is no error.
pub open spec fn table_after_delete(t: SessionTable, token: Seq<char>) -> SessionTable {
    t.remove(token)
}

/// What the store answers when asked for the expiry of `token`.
pub open spec fn lookup_in(t: SessionTable, token: Seq<char>) -> SessionLookup {
    if t.contains_key(token) {
        SessionLookup::Found(t[token])
    } else {
        SessionLookup::Missing
    }
}

/// A session opened at `now` is active until one hour later and from then on
/// is not, with no deletion.
pub proof fn lemma_session_expires(r: SessionRecord, user_id: i64, now: i64, later: i64)
    requires
        opened_at(r, user_id, now),
    ensures
        now <= later < now + SESSION_TTL ==> lookup_active(SessionLookup::Found(r.expires_at), later),
        later >= now + SESSION_TTL ==> !lookup_active(SessionLookup::Found(r.expires_at), later),
{
}

} // verus!
