use vstd::prelude::*;

use crate::channel::Channel;
use crate::error::SendError;
use crate::packet::Target;

verus! {

/// The largest text payload, in bytes, that one message may carry.
pub const MAX_PAYLOAD_SIZE: usize = 200;

/// The number of bytes of the UTF-8 encoding of `s`, as `str::len` gives it.
pub open spec fn utf8_len(s: Seq<char>) -> usize {
    vstd::utf8::encode_utf8(s).len() as usize
}

impl Channel {
    /// Whether the channel is well formed, that is its index at most 7.
    pub fn is_valid(&self) -> (r: bool)
        ensures
            r == self.wf(),
    {
        match self {
            Channel::Primary => true,
            Channel::Other(n) => 1 <= *n && *n <= crate::channel::MAX_CHANNEL,
        }
    }

    /// The channel as the transport takes it. A well-formed channel always
    /// has an index that the transport accepts.
    fn to_mesh_channel(&self) -> meshtastic::types::MeshChannel
        requires
            self.wf(),
    {
        let index = self.into_channel();
        meshtastic::types::MeshChannel::new(index as u32).unwrap()
    }
}

/// The channel asked for, or the primary channel when none is.
pub open spec fn chosen_channel(channel: Option<Channel>) -> Channel {
    match channel {
        Some(c) => c,
        None => Channel::Primary,
    }
}

/// A text message checked and ready for the transport.
pub struct OutgoingText {
    pub text: String,
    pub target: Target,
    /// The channel it goes out on: the one asked for, or the primary one.
    pub channel: Channel,
    /// `channel` as the transport takes it.
    pub mesh_channel: meshtastic::types::MeshChannel,
}

/// Checks a text message before sending: a text of more than
/// `MAX_PAYLOAD_SIZE` bytes is refused with its length; otherwise the text
/// goes to `target` on `channel`, or on the primary channel when none is
/// given.
pub fn prepare_message(text: String, target: Target, channel: Option<Channel>) -> (r: Result<
    OutgoingText,
    SendError,
>)
    requires
        channel matches Some(c) ==> c.wf(),
    ensures
        utf8_len(text@) > MAX_PAYLOAD_SIZE ==> r == Err::<OutgoingText, SendError>(
            SendError::TooBig(utf8_len(text@)),
        ),
        utf8_len(text@) <= MAX_PAYLOAD_SIZE ==> {
            &&& r is Ok
            &&& r->Ok_0.text@ == text@
            &&& r->Ok_0.target == target
            &&& r->Ok_0.channel == chosen_channel(channel)
        },
{
    let len = text.as_str().len();
    if len > MAX_PAYLOAD_SIZE {
        return Err(SendError::TooBig(len));
    }
    let chosen = match channel {
        Some(c) => c,
        None => Channel::default(),
    };
    let mesh_channel = chosen.to_mesh_channel();
    Ok(OutgoingText { text, target, channel: chosen, mesh_channel })
}

} // verus!
