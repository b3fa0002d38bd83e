//! Typed object model of the vector-graphics markup that the Typst compiler
//! emits, and the structure-preserving mapping from it to a declarative tree
//! of elements.

pub mod node;
pub mod svg_types;
pub mod remap;
pub mod error;
pub mod convert;
pub mod structure;
