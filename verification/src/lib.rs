//! Verified core of a lightweight media flyout: track state, persisted
//! settings, placement and hit-testing geometry, and the small state machines
//! that drive the flyout window.

pub mod text;
pub mod config;
pub mod app;
pub mod render;
pub mod flyout;
pub mod media;
pub mod settings;
pub mod hotkey;
