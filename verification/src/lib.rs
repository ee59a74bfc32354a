//! Contribution-check notification engine.
//!
//! Decides whether a tracked user has produced a contribution on a given
//! calendar date, computes the wait until a fixed daily trigger time, and
//! plans the notification deliveries that report the answer.

pub mod calendar;
pub mod client;
pub mod config;
pub mod errors;
pub mod handlers;
pub mod json;
pub mod notify;
pub mod schedule;
