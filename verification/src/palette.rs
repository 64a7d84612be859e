//! The terminal's palette: from the indexes of its colours to true colours.
pub mod converter;
pub mod main;
pub mod osc;
pub mod parser;
