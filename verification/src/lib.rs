//! A renderer core for SBGN process-description diagrams.
//!
//! The library turns a parsed diagram tree — glyph nodes with absolute
//! bounding boxes and arc connectors — into an exact sequence of vector
//! drawing commands.  All geometry is carried out in exact rational
//! arithmetic; a drawing surface (outside this crate) replays the command
//! sequence to produce raster or vector output.

pub mod rat;
pub mod geom;
pub mod cmd;
pub mod text;
pub mod style;
pub mod transform;
pub mod glyph;
pub mod shapes;
pub mod node;
pub mod overlay;
pub mod arcs;
pub mod render;
