//! Per-frame state of the optional accessibility-tree collaborator.

use vstd::prelude::*;
use std::collections::HashMap;

verus! {

/// Relies on the outside type `accesskit::Node`, a single accessible object
/// in an accessibility tree. This crate only stores such nodes and discards
/// them at the frame boundary; it never looks inside one, so the type is
/// declared opaque.
#[verifier::external_type_specification]
#[verifier::external_body]
pub struct ExAccessKitNode(accesskit::Node);

/// State of the accessibility-tree builder for the current frame: the nodes
/// built so far, keyed by widget identifier, and the stack of identifiers of
/// the tree ancestors of the widget currently being laid out.
pub struct AccessKitFrameState {
    pub nodes: HashMap<u64, accesskit::Node>,
    pub parent_stack: Vec<u64>,
}

} // verus!
