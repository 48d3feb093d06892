//! The agenda service: family agendas, ledgers and schedules.
pub mod cache;
pub mod dto;
pub mod error;
pub mod handler;
pub mod ledger;
pub mod schedule;
pub mod store;
pub mod tx;
