//! Taskbar integration for a desktop music player: transport-button glyphs,
//! compositor-ready thumbnail surfaces, the registry of known windows, and the
//! step-by-step controller that drives the platform's thumbnail toolbar; beside
//! it, the player's server list and transfer queue behind its command surface.

pub mod app_state;
pub mod bitmap;
pub mod buttons;
pub mod commands;
pub mod controller;
pub mod error;
pub mod glyph;
pub mod registry;
pub mod surface;
pub mod thumbnail;
