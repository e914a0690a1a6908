//! Resumable, chunked backfill of event indexes over miniblocks `0..=last`.

pub mod engine;
pub mod laws;
pub mod model;
