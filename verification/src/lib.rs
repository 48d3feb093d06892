//! Shared rules of the simplife services: cache keys, response bodies,
//! error replies, session and family lookups, agenda permissions and the
//! agenda transaction protocol.
pub mod account;
pub mod agenda;
pub mod cache;
pub mod context;
pub mod crypto;
pub mod error;
pub mod login_check;
pub mod response;
pub mod sql;
pub mod text;
pub mod time;
pub mod trace;
