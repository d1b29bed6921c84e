//! Decisions and text of the PlumBrowser shell.
//!
//! The window, the web views and the network belong to the program around this
//! library. What the shell shows, what it loads and how its state changes is
//! decided here.

pub mod address;
pub mod browser;
pub mod devtools;
pub mod effect;
pub mod encoding;
pub mod json;
pub mod laws;
pub mod message;
pub mod pages;
pub mod platform;
pub mod tab;
pub mod text;
pub mod toolbar;
