//! What each endpoint decides, apart from the transport and the record store.

pub mod auth;
pub mod billing;
pub mod completions;
pub mod daily_logs;
pub mod demo;
pub mod habits;
pub mod health;
pub mod insights;
pub mod ws;
