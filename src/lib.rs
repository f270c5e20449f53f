//! A text-mode console: a grid of display cells reached through volatile
//! accesses, a writer that renders bytes onto its bottom row and scrolls, and
//! an ordered transmit loop for the serial channel.

pub mod buffer;
pub mod color;
pub mod laws;
pub mod screen;
pub mod serial;
pub mod writer;
