//! Format-specific analysis of image containers.

pub mod avif;
pub mod gif;
pub mod jpeg;
pub mod jxl;
pub mod png;
pub mod tiff;
pub mod webp;
