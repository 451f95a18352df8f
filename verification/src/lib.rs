//! Stream Pad: the logic behind a quick-action button panel (profiles of buttons
//! that open links, launch programs, open folders and play sounds; items dropped
//! onto the panel become buttons; remote panels trigger them over a WebSocket)
//! and behind its installer window.
pub mod text;
pub mod urls;
pub mod deck;
pub mod trigger;
pub mod files;
pub mod dragged;
pub mod import;
pub mod drop_target;
pub mod bmp;
pub mod sound;
pub mod remote;
pub mod installer;
pub mod setup;
pub mod screen;
