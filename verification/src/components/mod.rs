//! The decisions behind the UI panels, apart from drawing them.

pub mod games;
pub mod servers;
pub mod stats;
pub mod groups;
pub mod main_panel;
