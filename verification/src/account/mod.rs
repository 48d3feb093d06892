//! The account service: logins, sessions and family membership.
pub mod cache;
pub mod config;
pub mod dto;
pub mod rpc;
pub mod service;
pub mod store;
