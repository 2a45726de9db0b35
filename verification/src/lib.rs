//! Small data structures with verified contracts.
//!
//! - [`my_box`]: a single-owner heap container for exactly one value.

pub mod my_box;
