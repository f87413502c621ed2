//! Tokens, the refresh ledger and admission control.

pub mod jwt;
pub mod ledger;
pub mod middleware;
pub mod rate_limit;
