//! Building blocks for message pipelines.

pub mod sink;
