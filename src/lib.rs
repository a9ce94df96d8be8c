//! Bounded-memory rendering of multi-page documents into per-page images:
//! window scheduling, target-size resolution, luma filters and the
//! fail-fast bookkeeping of the parallel write stage.
pub mod cli;
pub mod config;
pub mod error;
pub mod filter;
pub mod naming;
pub mod orchestrate;
pub mod scheduler;
pub mod size;
pub mod window;
pub mod writer;
