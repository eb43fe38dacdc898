//! Rendering of file ownership and file size into aligned, color-tagged
//! fragments of a directory listing.

pub mod color;
pub mod owner;
pub mod size;
pub mod text;
