//! A weather polling library: maps raw weather readings into a stable flat
//! record schema, routes records to per-city per-year partition files, and
//! drives a paced, timeout-bounded fetch pipeline as a verified state machine.
pub mod config;
pub mod numtext;
pub mod pipeline;
pub mod reading;
pub mod record;
pub mod rowtext;
pub mod timetext;
