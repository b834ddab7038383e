//! Album-art configuration and the decision logic of the album-art pane.
pub mod config;
pub mod paths;
pub mod pane;
pub mod pane_laws;
