use vstd::prelude::*;

verus! {

/// The numeric identifier of a mesh node.
#[derive(Debug, Clone, Copy, PartialEq, Eq, Structural)]
pub struct NodeId(pub u32);

impl From<u32> for NodeId {
    fn from(id: u32) -> (r: NodeId)
        ensures
            r == NodeId(id),
    {
        NodeId(id)
    }
}

impl vstd::std_specs::convert::FromSpecImpl<u32> for NodeId {
    open spec fn obeys_from_spec() -> bool {
        true
    }

    open spec fn from_spec(id: u32) -> NodeId {
        NodeId(id)
    }
}

impl From<NodeId> for u32 {
    fn from(id: NodeId) -> (r: u32)
        ensures
            r == id.0,
    {
        id.0
    }
}

impl vstd::std_specs::convert::FromSpecImpl<NodeId> for u32 {
    open spec fn obeys_from_spec() -> bool {
        true
    }

    open spec fn from_spec(id: NodeId) -> u32 {
        id.0
    }
}

impl core::ops::Deref for NodeId {
    type Target = u32;

    fn deref(&self) -> &u32 {
        &self.0
    }
}

} // verus!
