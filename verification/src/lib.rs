//! Reconciles two object stores by calendar date and converts the daily
//! gzip-compressed CSV files of one into Zstd-compressed Parquet files for
//! the other. The crate decides and computes; listing, fetching and writing
//! are left to the caller, which drives [`pipeline::Run`] one event at a time.

pub mod config;
pub mod convert;
pub mod date;
pub mod error;
pub mod header;
pub mod index;
pub mod names;
pub mod pipeline;
pub mod plan;
pub mod schema;
