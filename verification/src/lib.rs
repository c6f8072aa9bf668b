//! Text-shaping and box-layout core of a retained-mode UI pipeline.
//!
//! Given a parsed font, raw text and a node's computed style, the crate
//! produces a shaped glyph run, a line-broken and alignment-resolved inline
//! text layout, and a positioned rectangle (size, offsets, box edges,
//! overflow and scroll bookkeeping) for every node of a layout tree.
//!
//! The modules, leaves first: [`geometry`] holds points, sizes, rectangles
//! and box edges; [`font_metrics`] extracts resolution-independent metrics
//! from a font binary; [`shaping`] loads a font face and turns characters
//! into positioned glyphs; [`script`] estimates the script and language of
//! a text; [`text_layout`] splits text into words, breaks words into lines
//! and aligns them; [`pipeline`] chains shaping and line layout for one
//! text node; [`box_model`] resolves per-node rectangles and overflow;
//! [`scroll`] registers scroll containers and carries the aggregate result
//! of a pass; [`dom`] is the node vocabulary the tree is built from.
//!
//! All geometry is carried in whole pixels as signed 64-bit integers; the
//! style system resolves percentage-based quantities to absolute pixels
//! before this crate runs.

pub mod box_model;
pub mod dom;
pub mod font_metrics;
pub mod geometry;
pub mod pipeline;
pub mod script;
pub mod scroll;
pub mod shaping;
pub mod text_layout;
