//! The records of the store as the rules read them. Identifiers are the 128
//! bits of a UUID, instants are Unix seconds, and a calendar date is the
//! number of its day, counted from 1 for the first of January of year 1.

pub mod completion;
pub mod daily_log;
pub mod habit;
pub mod user;
