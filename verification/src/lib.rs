//! Escape-time engine for drawing the Mandelbrot set as text.
//!
//! The library has two halves, run in sequence: a field calculator that
//! produces a grid of escape-iteration counts, and a glyph renderer that
//! quantizes each count into a character and assembles one line per row.
//! A small open/closed file object rounds the crate out.

pub mod escape;
pub mod field;
pub mod file;
pub mod render;
