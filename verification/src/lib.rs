//! Overlay window management for a racing-telemetry desktop shell.
//!
//! The crate keeps the registry of overlay window configurations and named
//! presets, together with a model of which overlay windows currently exist
//! and whether each is shown.  Every command of the UI surface is a verified
//! transition on that state; each returns the list of window actions that a
//! host windowing toolkit must perform to bring the real windows in line
//! with the new state.

pub mod config;
pub mod laws;
pub mod model;
pub mod registry;
pub mod supervisor;
