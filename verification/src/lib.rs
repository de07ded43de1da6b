//! Verified core of a terminal viewer over an externally managed task snapshot:
//! the task model, the navigation controller, the reload gating decisions and
//! the small rules of the user interface.

pub mod model;
pub mod settings;
pub mod controller;
pub mod laws;
pub mod loader;
pub mod ui;
pub mod text;
