use vstd::prelude::*;

use crate::packet::{hops_between, PacketView, Target};

verus! {

/// What a frame from the device carries.
#[derive(Debug, Clone)]
pub enum FramePayload {
    /// Application data: the payload bytes and the reaction marker.
    Decoded { payload: Vec<u8>, emoji: u32 },
    /// The device's own identity record.
    Identity { node_num: u32 },
    /// Routing, telemetry and anything else.
    Other,
}

/// One decoded unit of the device's inbound stream.
#[derive(Debug, Clone)]
pub struct Frame {
    pub from: u32,
    pub to: u32,
    pub channel: u32,
    pub id: u32,
    pub via_mqtt: bool,
    pub hop_start: u8,
    pub hop_limit: u8,
    pub payload: FramePayload,
}

impl Frame {
    /// The packet that this frame's header and the text `text` make.
    pub open spec fn packet_with(self, text: Seq<char>) -> PacketView {
        PacketView {
            from: self.from,
            to: Target::of_id(self.to),
            channel: self.channel,
            id: self.id,
            via_mqtt: self.via_mqtt,
            hop_start: self.hop_start,
            hop_limit: self.hop_limit,
            hops_traveled: hops_between(self.hop_start, self.hop_limit),
            payload: text,
        }
    }
}

} // verus!
