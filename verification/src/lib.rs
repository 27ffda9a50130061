//! Remote command orchestration for a fleet of benchmark machines: the
//! command model, the retry and polling decisions of the connection manager,
//! the error taxonomy, and the aggregation of the measurements that the
//! commands report.

pub mod collector;
pub mod command;
pub mod connection;
pub mod error;
pub mod manager;
pub mod metrics;
pub mod scrape;
pub mod text;
pub mod time;
