//! A small VDU-style text output device: a byte-stream command interpreter
//! that keeps a text cursor in pixel coordinates and rasterizes glyphs from a
//! fixed bitmap font into 8x8 cells.
//!
//! The host owns the inbound byte queue and the render surface; the
//! interpreter in [`vdp`] is handed one received byte per poll and returns
//! what the surface must do.

pub mod cursor;
pub mod glyph;
pub mod vdp;
