//! The scheduling and quota core of a chat bot that sends weather forecasts and
//! coin prices: a daily schedule that retries inside an hour window until it
//! succeeds, per-user quotas of costly lookups, the decisions of the periodic
//! worker, and the messages it sends.

pub mod bitcoin;
pub mod config;
pub mod quota;
pub mod scheduler;
pub mod viber;
pub mod worker;
