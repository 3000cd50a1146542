//! An authentication service core: credential, revocation and two-factor challenge
//! stores, session tokens, and the login / logout / two-factor state machine.

pub mod api;
pub mod auth;
pub mod banned_token_store;
mod clock;
pub mod email;
pub mod error;
pub mod laws;
pub mod password;
pub mod pattern;
pub mod session;
pub mod table;
pub mod two_fa;
pub mod two_fa_code_store;
pub mod user;
pub mod user_store;
