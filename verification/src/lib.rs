//! Session and credential lifecycle of the HabitArc API: signed access and
//! refresh tokens, single-use refresh rotation with reuse detection, and the
//! fixed-window limiter in front of the public session endpoints, together
//! with the request rules of the habit, mood and billing resources.
//!
//! Every function here is verified against its contract. What comes from
//! other crates (signing, JSON objects, digests, identifiers, the clock) is
//! reached through a handful of small functions whose contracts are taken on
//! trust; each says in its documentation what it claims and of which outside
//! function.
//!
//! Functions that read the clock or draw a random identifier have a twin,
//! named with `_at`, that takes the instant and the identifiers as arguments
//! and is specified exactly.

pub mod auth;
pub mod calendar;
pub mod config;
pub mod dto;
pub mod error;
pub mod handlers;
pub mod json;
pub mod models;
pub mod platform;
pub mod text;
