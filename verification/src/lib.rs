//! A small disk-oriented database kernel: an LRU-K page replacer, a buffer
//! pool manager, a catalog of table schemas, a binder, a planner and the
//! expression and plan trees that the executors run.

pub mod common;
pub mod buffer;
pub mod storage;
pub mod sql_type;
pub mod catalog;
pub mod execution;
pub mod binder;
pub mod planner;
pub mod optimizer;
pub mod concurrency;
