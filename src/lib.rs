//! Authentication and session-lifecycle core: credential policy checks,
//! session-token issuance, session liveness and termination, and the
//! decision steps of the registration, login and logout workflows.
pub mod auth;
pub mod db;
pub mod policy;
pub mod session;
pub mod token;
pub mod login;
pub mod logout;
pub mod register;
