//! Serpentine backend: configuration, the decisions of the HTTP interface,
//! and metric storage.
pub mod auto;
pub mod config;
pub mod interface;
pub mod metric;
pub mod misc_util;
