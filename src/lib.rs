//! Persistence model for brokerage records: entity values, the identity and
//! key strategy of each storage backend, the request and result shapes that the
//! adapters exchange with the backends, and a versioned migration engine.

pub mod ids;
pub mod account;
pub mod amount;
pub mod config;
pub mod eod_summary;
pub mod error;
pub mod record;
pub mod dynamo;
pub mod mongo;
pub mod migration;
pub mod schema;
pub mod migrations;
pub mod guarantees;
pub mod security;
pub mod trade_execution;
