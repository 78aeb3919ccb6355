//! Verified core of a keyboard-driven launcher.

pub mod config;
pub mod dispatch;
pub mod failure;
pub mod launcher;
pub mod laws;
pub mod shortcut;
pub mod surface;
pub mod text;
