use vstd::prelude::*;

use crate::frame::{Frame, FramePayload};
use crate::node_id::NodeId;

verus! {

/// Where the wait for the device's identity record stands.
#[derive(Debug, Clone, Copy, PartialEq, Eq, Structural)]
pub enum IdentityWait {
    /// No identity record yet: read the next frame.
    Waiting,
    /// The device's identity arrived.
    Identified(NodeId),
    /// The frame source ended before any identity record.
    Lost,
}

/// The node identity that a frame carries, if it is an identity record.
pub open spec fn identity_in(f: Frame) -> Option<NodeId> {
    match f.payload {
        FramePayload::Identity { node_num } => Some(NodeId(node_num)),
        _ => None,
    }
}

/// The wait's outcome once the frame source has handed over `next`: `None`
/// when the source ended.
pub open spec fn identity_step(next: Option<Frame>) -> IdentityWait {
    match next {
        None => IdentityWait::Lost,
        Some(f) => match identity_in(f) {
            Some(id) => IdentityWait::Identified(id),
            None => IdentityWait::Waiting,
        },
    }
}

/// The node identity that `frame` carries, if it is an identity record.
pub fn identity_of(frame: &Frame) -> (r: Option<NodeId>)
    ensures
        r == identity_in(*frame),
{
    match &frame.payload {
        FramePayload::Identity { node_num } => Some(NodeId::from(*node_num)),
        _ => None,
    }
}

/// Takes in what the frame source handed over while the identity is awaited:
/// the next frame, or `None` once the source has ended. Frames other than
/// the identity record are passed over.
pub fn await_identity(next: &Option<Frame>) -> (r: IdentityWait)
    ensures
        r == identity_step(*next),
{
    match next {
        None => IdentityWait::Lost,
        Some(f) => match identity_of(f) {
            Some(id) => IdentityWait::Identified(id),
            None => IdentityWait::Waiting,
        },
    }
}

} // verus!
