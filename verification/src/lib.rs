//! A compositor for terminal cell surfaces: layers of cells, half-block
//! pixels and palette colours merged into one frame.
pub mod blender;
pub mod cell;
pub mod colour;
pub mod config;
pub mod compositor;
pub mod grid;
pub mod loader;
pub mod output;
pub mod palette;
pub mod picture;
pub mod renderer;
pub mod run;
pub mod scalar;
pub mod surface;
pub mod tattoys;
pub mod text;
pub mod utils;
