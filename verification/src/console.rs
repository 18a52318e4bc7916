//! The native console: a desktop window on the cluster's resources.
//!
//! The window draws the pages and performs the actions that an update asks for; what it
//! shows and what it asks for is decided here.

pub mod records;
pub mod state;
pub mod pages;
pub mod commands;
pub mod icon;
