//! Batch compression with gzip, brotli and zstd.

pub mod binding;
pub mod compress;
pub mod decode;
pub mod error;
pub mod laws;
pub mod scheduler;
pub mod text;
