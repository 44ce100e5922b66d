//! Identifiers of nodes and of equivalence classes.
//!
//! Both are backed by a string and compared by its exact characters: no case
//! folding, no trimming. They are two types so that one cannot stand where the
//! other is meant.

use vstd::prelude::*;

verus! {

/// The identifier of a node. Its view is the sequence of its characters.
#[derive(Clone, Debug, PartialEq, Eq, Hash)]
pub struct NodeId {
    name: String,
}

/// The identifier of an equivalence class. Its view is the sequence of its
/// characters.
#[derive(Clone, Debug, PartialEq, Eq, Hash)]
pub struct ClassId {
    name: String,
}

impl View for NodeId {
    type V = Seq<char>;

    closed spec fn view(&self) -> Seq<char> {
        self.name@
    }
}

impl View for ClassId {
    type V = Seq<char>;

    closed spec fn view(&self) -> Seq<char> {
        self.name@
    }
}

impl DeepView for NodeId {
    type V = Seq<char>;

    open spec fn deep_view(&self) -> Seq<char> {
        self@
    }
}

impl DeepView for ClassId {
    type V = Seq<char>;

    open spec fn deep_view(&self) -> Seq<char> {
        self@
    }
}

impl NodeId {
    /// Makes an identifier of any string.
    pub fn new(name: String) -> (id: NodeId)
        ensures
            id@ == name@,
    {
        NodeId { name }
    }

    /// The identifier's characters.
    pub fn as_str(&self) -> (s: &str)
        ensures
            s@ == self@,
    {
        self.name.as_str()
    }
}

impl ClassId {
    /// Makes an identifier of any string.
    pub fn new(name: String) -> (id: ClassId)
        ensures
            id@ == name@,
    {
        ClassId { name }
    }

    /// The identifier's characters.
    pub fn as_str(&self) -> (s: &str)
        ensures
            s@ == self@,
    {
        self.name.as_str()
    }
}

} // verus!
