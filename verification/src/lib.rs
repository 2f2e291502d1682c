//! The decision logic and text formatting of a small audio player.
//!
//! The window, the audio device, the file dialog and the configuration file
//! live in the application around this library; what they decide and what
//! they show is computed, and proved, here.

pub mod config;
pub mod normalize;
pub mod player;
pub mod text;
