//! The terminal dashboard.

pub mod dashboard;
pub mod feed;
pub mod keys;
pub mod laws;
pub mod model;
pub mod reading;
pub mod render;
pub mod screen;
pub mod shown;
pub mod text;
