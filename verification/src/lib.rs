//! A schema-driven row synthesizer and rate-controlled dispatch planner for a
//! time-series load generator.
//!
//! The library maps an abstract column schema to concrete typed value
//! sequences for a contiguous range of row indices, assembles them into write
//! batches, and plans the per-tick burst of batches that a driver loop
//! submits to a remote store.

pub mod batch;
pub mod dispatch;
pub mod schema;
pub mod synth;
pub mod text;
