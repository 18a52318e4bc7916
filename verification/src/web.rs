//! The web console: what its panels show and what their controls do.
//!
//! A page is handed the snapshot that the backend served and says what stands on it;
//! the frontend draws it. What a click needs of the network comes back as a request.

pub mod labels;


pub mod panels;
pub mod lists;
pub mod research;
pub mod admin;
pub mod form;
pub mod app;
