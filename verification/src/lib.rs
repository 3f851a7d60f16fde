//! Account, session-token and form-handling logic of a fuel-quote web backend.
//!
//! The HTTP server, the database and the template engine stand outside this
//! crate; what is decided here (which credentials are stored, whether a login
//! succeeds, what a session token carries and when it is accepted, which page a
//! request is answered with) is verified with Verus.
pub mod entries;
pub mod decimal;
pub mod config;
pub mod cookies;
pub mod jwt;
pub mod autoauth;
pub mod database;
pub mod routes;
