//! The panel workspaces of the web console.

pub mod events;
pub mod state;
pub mod views;
