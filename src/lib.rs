//! Measurement of the compiled size of WebAssembly projects over time: the
//! provenance and output records, the plan of each benchmark, the merge of
//! measurement batches and the ordering of dated snapshots.

pub mod model;
pub mod codec;
pub mod error;
pub mod text;
pub mod runner;
pub mod record;
pub mod collect;
pub mod history;
pub mod tasks;
