//! The ways in which a query fails.

use crate::ident::{ClassId, NodeId};
use vstd::prelude::*;

verus! {

/// Why a query gave no answer. A failed query gives nothing else: no part of
/// a graph, of a node or of a class.
#[derive(Clone, Debug, PartialEq, Eq)]
pub enum QueryError {
    /// The text is not a serialized e-graph. `diagnostic` is the decoder's own
    /// message, unchanged.
    Parse { diagnostic: String },
    /// The graph stores no node under `node_id`.
    NodeNotFound { node_id: NodeId },
    /// No node of the graph belongs to the class `class_id`.
    ClassNotFound { class_id: ClassId },
}

/// What a [`QueryError`] holds, as mathematical values.
pub enum QueryErrorView {
    Parse { diagnostic: Seq<char> },
    NodeNotFound { node_id: Seq<char> },
    ClassNotFound { class_id: Seq<char> },
}

impl View for QueryError {
    type V = QueryErrorView;

    open spec fn view(&self) -> QueryErrorView {
        match self {
            QueryError::Parse { diagnostic } => QueryErrorView::Parse { diagnostic: diagnostic@ },
            QueryError::NodeNotFound { node_id } => QueryErrorView::NodeNotFound {
                node_id: node_id@,
            },
            QueryError::ClassNotFound { class_id } => QueryErrorView::ClassNotFound {
                class_id: class_id@,
            },
        }
    }
}

/// The text that describes an error to a reader.
pub open spec fn message_of(e: QueryErrorView) -> Seq<char> {
    match e {
        QueryErrorView::Parse { diagnostic } => "Failed to parse egraph: "@ + diagnostic,
        QueryErrorView::NodeNotFound { node_id } => "Node "@ + node_id + " not found"@,
        QueryErrorView::ClassNotFound { class_id } => "Class "@ + class_id + " not found"@,
    }
}

impl QueryError {
    /// Describes the error in one line that names what failed: the decoder's
    /// diagnostic, or the identifier that was not found.
    pub fn message(&self) -> (text: String)
        ensures
            text@ == message_of(self@),
    {
        match self {
            QueryError::Parse { diagnostic } => {
                String::from_str("Failed to parse egraph: ").concat(diagnostic.as_str())
            },
            QueryError::NodeNotFound { node_id } => {
                String::from_str("Node ").concat(node_id.as_str()).concat(" not found")
            },
            QueryError::ClassNotFound { class_id } => {
                String::from_str("Class ").concat(class_id.as_str()).concat(" not found")
            },
        }
    }
}

} // verus!
