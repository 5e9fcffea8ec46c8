//! Two-dimensional underwater acoustic ray tracing: the exact, verified part of
//! the engine. Material tables and elastic moduli, configuration checks, frame
//! scheduling, interface-crossing decisions, the ray arena's ordered compaction
//! and the grid that buckets ray samples by cell.
pub mod arena;
pub mod config;
pub mod grid;
pub mod material;
pub mod medium;
pub mod source;
