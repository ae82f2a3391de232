use vstd::prelude::*;

verus! {

/// The destination of a message.
#[derive(Debug, Clone, Copy, PartialEq, Eq, Structural)]
pub enum Target {
    /// Broadcast on the primary channel.
    PrimaryChannel,
    /// One node, by its number.
    NodeId(u32),
}

/// The raw destination that stands for a broadcast.
pub const BROADCAST_ADDRESS: u32 = 0xFFFF_FFFF;

impl Target {
    pub const PRIMARY_CHANNEL_ID: u32 = BROADCAST_ADDRESS;

    /// The target that the raw destination `id` names.
    pub open spec fn of_id(id: u32) -> Target {
        if id == BROADCAST_ADDRESS {
            Target::PrimaryChannel
        } else {
            Target::NodeId(id)
        }
    }

    /// The raw destination of a target.
    pub open spec fn id(self) -> u32 {
        match self {
            Target::PrimaryChannel => BROADCAST_ADDRESS,
            Target::NodeId(id) => id,
        }
    }

    pub fn into_id(&self) -> (r: u32)
        ensures
            r == self.id(),
    {
        match self {
            Target::PrimaryChannel => Self::PRIMARY_CHANNEL_ID,
            Target::NodeId(id) => *id,
        }
    }
}

impl From<u32> for Target {
    fn from(id: u32) -> (r: Target)
        ensures
            r == Target::of_id(id),
    {
        if id == Self::PRIMARY_CHANNEL_ID {
            Target::PrimaryChannel
        } else {
            Target::NodeId(id)
        }
    }
}

impl vstd::std_specs::convert::FromSpecImpl<u32> for Target {
    open spec fn obeys_from_spec() -> bool {
        true
    }

    open spec fn from_spec(id: u32) -> Target {
        Target::of_id(id)
    }
}

/// Converting a raw destination to a target and back gives the raw value;
/// the broadcast address becomes `PrimaryChannel` and nothing else does.
pub proof fn lemma_target_round_trip(t: u32)
    ensures
        Target::of_id(t).id() == t,
        (Target::of_id(t) == Target::PrimaryChannel) <==> t == BROADCAST_ADDRESS,
{
}

/// A text message received from the mesh.
#[derive(Debug, Clone)]
pub struct Packet {
    /// Source node.
    pub from: u32,
    /// Destination.
    pub to: Target,
    /// The local channel.
    pub channel: u32,
    /// Unique packet id.
    pub id: u32,
    pub via_mqtt: bool,
    /// Hop limit with which the packet started.
    pub hop_start: u8,
    /// Current hop limit: 0 at the last receiving node.
    pub hop_limit: u8,
    /// Hops already travelled: `hop_start - hop_limit`, and 0 where the
    /// limit exceeds the start.
    pub hops_traveled: u8,
    pub payload: String,
}

/// What a `Packet` holds, with the text as characters.
pub struct PacketView {
    pub from: u32,
    pub to: Target,
    pub channel: u32,
    pub id: u32,
    pub via_mqtt: bool,
    pub hop_start: u8,
    pub hop_limit: u8,
    pub hops_traveled: u8,
    pub payload: Seq<char>,
}

impl View for Packet {
    type V = PacketView;

    open spec fn view(&self) -> PacketView {
        PacketView {
            from: self.from,
            to: self.to,
            channel: self.channel,
            id: self.id,
            via_mqtt: self.via_mqtt,
            hop_start: self.hop_start,
            hop_limit: self.hop_limit,
            hops_traveled: self.hops_traveled,
            payload: self.payload@,
        }
    }
}

/// Hops travelled by a packet that started with `start` and now has `limit`
/// left; a limit above the start counts as no hop at all.
pub open spec fn hops_between(start: u8, limit: u8) -> u8 {
    if start >= limit {
        (start - limit) as u8
    } else {
        0
    }
}

} // verus!
