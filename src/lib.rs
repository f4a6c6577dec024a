//! Configuration resolution for a terminal system-information display.

pub mod paths;
pub mod settings;
pub mod locate;
pub mod bootstrap;
