//! Abstract-syntax-tree model for a markdown document inside a
//! source-to-text reformatting tool.
//!
//! The crate defines the node taxonomy covering every syntactic construct
//! the upstream parser recognizes, a uniform mechanism tying each node to
//! its originating byte span in the source text, and a small set of
//! text-oriented predicates that downstream layout logic consults to
//! decide spacing and escaping.

pub mod convert;
pub mod nodes;
pub mod source;
pub mod tree;
pub mod words;
