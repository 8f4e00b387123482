//! Verified building blocks of a debugging harness that feeds one mock
//! Ethereum block through a subgraph indexer: the values of the mock block
//! and the Prometheus metrics that the indexer is wired with.

pub mod eth;
pub mod block;
pub mod metrics;
pub mod histogram;
pub mod config;
pub mod harness;
