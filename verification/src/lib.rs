//! Renders the pattern grid of a tracker song into an in-memory RGBA raster,
//! mimicking the tracker's own editor view: one row of glyph cells per line,
//! one block of note/effect columns per track, colored by effect category and
//! beat highlighting.

pub mod canvas;
pub mod color;
pub mod font;
pub mod layout;
pub mod model;
pub mod render;
