//! Configuration, server-setup, metric-ingestion and command-line logic of
//! the Bencher continuous benchmarking service, with its contracts.

pub mod cli;
pub mod config;
pub mod endpoints;
pub mod json;
pub mod loader;
pub mod metrics;
pub mod outside;
pub mod server;
