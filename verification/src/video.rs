//! What the screen shows, read from memory.

pub mod display_file;
