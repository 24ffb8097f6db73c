//! Rendering of puzzle-board states into raster images.
//!
//! A board state is a non-empty sequence of pages, each a 10 x 23 grid of
//! cell values. The library composites one page (or every page in turn)
//! onto a fixed background image using a set of sprite tiles, and encodes
//! the result as a still or animated byte stream.

pub mod assets;
pub mod board;
pub mod compose;
pub mod encode;
pub mod raster;
