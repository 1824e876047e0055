//! A sparse grid of text cells, the scrolling window laid over it and the
//! modal key handling of a terminal editor for delimiter-separated files.

pub mod utils_model;
pub mod grid;
pub mod grid_ops;
pub mod text;
pub mod csv_model;
pub mod app_state_model;
pub mod window;
pub mod controller;
pub mod handle_args;
pub mod display;
pub mod default_app_model;
pub mod file_format;
