//! The layers: what each of them draws, frame by frame.
pub mod gpu;
pub mod minimap;
pub mod plugins;
pub mod random_walker;
pub mod tattoyer;
