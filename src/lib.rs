//! Session credentials: signed access, refresh and account-validation tokens,
//! the refresh-token table that decides which of them are still honoured, and
//! the login / register / refresh / logout / validate flows built on both.

pub mod jwt;
pub mod claims;
pub mod token_issuer;
pub mod store;
pub mod password;
pub mod users;
pub mod mail;
pub mod session;
pub mod models;
pub mod cancellation_token;
