use vstd::prelude::*;

use crate::error::InvalidChannel;

verus! {

/// Index of the primary channel.
pub const DEFAULT_CHANNEL: u8 = 0;

/// The highest channel index a device offers.
pub const MAX_CHANNEL: u8 = 7;

/// A logical mesh channel.
///
/// `Other(n)` is well formed when `1 <= n <= 7`; every value this library
/// builds is well formed.
#[derive(Debug, Clone, Copy, PartialEq, Eq, Structural)]
pub enum Channel {
    Primary,
    Other(u8),
}

impl Channel {
    pub open spec fn wf(self) -> bool {
        match self {
            Channel::Primary => true,
            Channel::Other(n) => 1 <= n && n <= MAX_CHANNEL,
        }
    }

    /// The channel's index.
    pub open spec fn index(self) -> u8 {
        match self {
            Channel::Primary => DEFAULT_CHANNEL,
            Channel::Other(n) => n,
        }
    }

    /// The channel with index `v`, or the error for an index above 7.
    pub open spec fn from_index(v: u32) -> Result<Channel, InvalidChannel> {
        if v == DEFAULT_CHANNEL as u32 {
            Ok(Channel::Primary)
        } else if v <= MAX_CHANNEL as u32 {
            Ok(Channel::Other(v as u8))
        } else {
            Err(InvalidChannel(v))
        }
    }

    pub fn into_channel(&self) -> (r: u8)
        ensures
            r == self.index(),
    {
        match self {
            Channel::Primary => DEFAULT_CHANNEL,
            Channel::Other(n) => *n,
        }
    }
}

impl Default for Channel {
    fn default() -> (r: Channel)
        ensures
            r == Channel::Primary,
    {
        Channel::Primary
    }
}

impl TryFrom<u32> for Channel {
    type Error = InvalidChannel;

    fn try_from(v: u32) -> (r: Result<Channel, InvalidChannel>)
        ensures
            r == Channel::from_index(v),
    {
        if v == DEFAULT_CHANNEL as u32 {
            Ok(Channel::Primary)
        } else if v <= MAX_CHANNEL as u32 {
            Ok(Channel::Other(v as u8))
        } else {
            Err(InvalidChannel(v))
        }
    }
}

impl vstd::std_specs::convert::TryFromSpecImpl<u32> for Channel {
    open spec fn obeys_try_from_spec() -> bool {
        true
    }

    open spec fn try_from_spec(v: u32) -> Result<Channel, InvalidChannel> {
        Channel::from_index(v)
    }
}

/// Every index in `0..=7` names a well-formed channel that gives the index
/// back; every index above 7 is refused.
pub proof fn lemma_channel_round_trip(v: u32)
    ensures
        v <= 7 ==> Channel::from_index(v) is Ok && Channel::from_index(v)->Ok_0.wf()
            && Channel::from_index(v)->Ok_0.index() == v,
        v > 7 ==> Channel::from_index(v) == Err::<Channel, InvalidChannel>(InvalidChannel(v)),
{
}

} // verus!
