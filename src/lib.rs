//! Conversion of a small subset of Markdown into a rich-text document format:
//! a `doc` root of paragraphs and code blocks, holding text nodes that may
//! carry a link.

pub mod adf;
pub mod convert;
pub mod laws;
pub mod mdtree;
pub mod render;

pub use convert::from_markdown;
