//! Batch conversion of raster images to WebP: directory scanning with a
//! decode probe, per-file conversion outcomes with error isolation, and
//! order-independent aggregation of batch results.

pub mod batch;
pub mod converter;
pub mod names;
pub mod outcome;
pub mod scan;
