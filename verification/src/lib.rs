//! Job queue library: cron schedules, queue bookkeeping plans and dashboard
//! computations, with their contracts proved by Verus.

pub mod basic_auth;
pub mod cli;
pub mod config;
pub mod dashboard;
pub mod hash;
pub mod jconfig;
pub mod json;
pub mod job_metadata;
pub mod keys;
pub mod ops;
pub mod queue;
pub mod runner;
pub mod store;
pub mod text;
pub mod time;
pub mod cron;
