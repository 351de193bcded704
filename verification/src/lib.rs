//! Finds the focused container in a window-manager layout tree and renders
//! its title as a single output line, with optional truncation.

pub mod config;
pub mod events;
pub mod title;
pub mod tree;
