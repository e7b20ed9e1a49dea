//! The state machine behind a terminal front end for a download manager:
//! the queue of links, the add-link dialog and its edit buffer, the key
//! dispatch that drives them, and the description of each frame to draw.

pub mod app;
pub mod controller;
pub mod layout;
pub mod text;
pub mod ui;
