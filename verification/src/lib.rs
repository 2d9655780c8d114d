//! A declarative layout and data-binding engine.
//!
//! Source text is tokenized and parsed into a tree of node declarations, the
//! declarations are bound against a colour table and host data into a tree of
//! styled nodes, and the styled nodes are measured into a tree of rectangles.
//! All lengths are whole pixels held in saturating 64-bit integers.

pub mod geometry;
pub mod text;
pub mod styling;
pub mod lang;
pub mod elements;
pub mod node;
pub mod layout;
pub mod laws;
pub mod graphics;
pub mod players;
pub mod records;
