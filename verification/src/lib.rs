//! Batch compression of raster images into size- and dimension-bounded JPEGs.
//!
//! The crate holds the decisions of the pipeline: configuration, target
//! dimensions, content classification, filter planning, the size-targeted
//! quality search, EXIF carry-over, output naming, file collection and the
//! progress bookkeeping of a batch. Every function carries a contract that
//! Verus proves; calls into codec crates sit behind small trusted wrappers.

pub mod analysis;
pub mod batch;
pub mod buffer;
pub mod codec;
pub mod collector;
pub mod config;
pub mod encoder;
pub mod error;
pub mod exif;
pub mod filters;
pub mod geometry;
pub mod order;
pub mod paths;
pub mod pipeline;
