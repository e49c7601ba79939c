//! Random sampling of NASA imagery and caption layout for desktop wallpapers.

pub mod compositor;
pub mod error;
pub mod json;
pub mod models;
pub mod overlay;
pub mod raster;
pub mod sampler;
pub mod sampling;
pub mod search;
pub mod text;
pub mod utils;
pub mod wrap;
