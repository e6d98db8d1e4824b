//! Layout, hit-testing and drawing decisions for a nested rectangle UI,
//! and the window settings of the host program.
pub mod builder;
pub mod config;
pub mod geometry;
pub mod menu;
pub mod ui;
