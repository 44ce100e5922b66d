//! Read-only queries over serialized e-graphs.
//!
//! An e-graph arrives as JSON text. The text is decoded into a [`Graph`],
//! and two queries read it: the node stored under a node identifier, and the
//! identifiers of the nodes that make up an equivalence class.

pub mod codec;
pub mod error;
pub mod graph;
pub mod ident;
pub mod laws;
pub mod model;
pub mod node;
pub mod query;

pub use crate::error::QueryError;
pub use crate::graph::Graph;
pub use crate::ident::{ClassId, NodeId};
pub use crate::node::Node;
pub use crate::query::{get_class_nodes, get_node_info, parse_egraph};
