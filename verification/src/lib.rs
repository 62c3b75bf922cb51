//! Verified core of a multi-strategy trading engine: environment selection,
//! text handling for exchange logs, and the rules that drive strategies.

pub mod amount;
pub mod environments;
pub mod balances;
pub mod binance;
pub mod call_logs;
pub mod dates;
pub mod engine;
pub mod entities;
pub mod guard;
pub mod health;
pub mod lifecycle;
pub mod loading;
pub mod overview;
pub mod posting;
pub mod query;
pub mod repository;
pub mod response;
pub mod runtime;
pub mod states;
pub mod stored;
pub mod text;
