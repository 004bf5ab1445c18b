//! Position-to-node resolution over a parsed syntax tree.
//!
//! Given a byte offset into the source and a category filter, the resolver
//! finds the most specific tree node of that category whose span contains
//! the offset: one depth-first traversal that tests each node only after
//! its children, so the deepest candidate always wins.

pub mod error;
pub mod kind;
pub mod laws;
pub mod pick;
pub mod query;
pub mod source_map;
pub mod span;
pub mod text;
pub mod tree;

pub use error::PickError;
pub use kind::NodeKind;
pub use pick::pick_node;
pub use query::{crate_mapped_check, pick_node_at_loc, pick_node_command, CommandOutcome};
pub use source_map::{SourceFile, SourceMap};
pub use span::Span;
pub use tree::{Crate, Node, NodeCat, NodeInfo, Param, CRATE_NODE_ID};
