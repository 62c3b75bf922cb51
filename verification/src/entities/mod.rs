//! Records of the engine's tables, the requests that select or change them,
//! and the rules that turn a request into a stored record.

pub mod actions;
pub mod assets;
pub mod common;
pub mod error_logs;
pub mod indicators;
pub mod integration_logs;
pub mod integration_settings;
pub mod integrations;
pub mod ledgers;
pub mod metrics;
pub mod orders;
pub mod pairs;
pub mod status;
pub mod strategies;
pub mod tasks;
