//! Loader for the MNIST handwritten-digit dataset's IDX binary files.
//!
//! The IDX format is a length-prefixed, big-endian binary layout: an image
//! file carries a 16-byte header (magic number, item count, rows, columns)
//! followed by `item count` blocks of `rows * columns` pixel bytes; a label
//! file carries an 8-byte header (magic number, item count) followed by one
//! class byte per item. This crate parses such byte blocks, cross-checks the
//! headers against the MNIST constants, and exposes the result as an
//! immutable dataset of paired images and labels.
//!
//! Reading the files from disk is left to the caller: every function here
//! works on in-memory bytes, so the whole load path is verified.

use vstd::prelude::*;

pub mod dataset;
pub mod parse;
pub mod render;

verus! {

/// Magic number expected at the head of an IDX image file.
pub const IMAGES_MAGIC_NUMBER: usize = 2051;

/// Magic number expected at the head of an IDX label file.
pub const LABELS_MAGIC_NUMBER: usize = 2049;

/// Number of samples in the MNIST training partition.
pub const NUM_TRAIN_IMAGES: usize = 60000;

/// Number of samples in the MNIST test partition.
pub const NUM_TEST_IMAGES: usize = 10000;

/// Pixel rows per MNIST image.
pub const IMAGE_ROWS: usize = 28;

/// Pixel columns per MNIST image.
pub const IMAGE_COLUMNS: usize = 28;

} // verus!
