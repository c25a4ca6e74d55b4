//! A minimal terminal text viewer: decodes key presses from raw terminal
//! input, keeps a cursor and scroll offset within loaded content, and renders
//! frames of ANSI control sequences.

pub mod editor;
pub mod files;
pub mod keys;
pub mod render;
pub mod term;
