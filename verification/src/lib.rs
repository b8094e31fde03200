//! The rendering core of a terminal-UI widget framework: a tree of widgets
//! is laid out under size constraints, positioned in global coordinates, and
//! painted glyph by glyph into a clipped surface; a sparse, resizable canvas
//! buffer backs the drawing widget.

pub mod attribs;
pub mod canvas;
pub mod constraints;
pub mod container;
pub mod element;
pub mod geometry;
pub mod padding;
pub mod paint;
pub mod position;
pub mod slab;
pub mod testing;
pub mod text;
pub mod tree;
