//! Verified decision, layout and formatting logic of the True Tick tray application.
pub mod arith;
pub mod geometry;
pub mod text;
pub mod timing;
pub mod pause;
pub mod surface;
pub mod decisions;
pub mod layout;
pub mod diagnostics;
pub mod icon;
pub mod ipc;
pub mod classify;
pub mod menu;
pub mod marquee;
pub mod recovery;
