//! Report generation for campus card transaction histories: a job ledger
//! protocol, a paginated aggregation engine, merchant tagging and trend
//! backfill planning.

pub mod text;
pub mod model;
pub mod numeric;
pub mod ledger;
pub mod page;
pub mod aggregate;
pub mod tagger;
pub mod queue;
pub mod calendar;
pub mod trend;
pub mod settings;
pub mod config;
pub mod worker_config;
