//! Cron expressions and the cron scheduler's bookkeeping.

pub mod field;
pub mod laws;
pub mod parser;
pub mod scheduler;
