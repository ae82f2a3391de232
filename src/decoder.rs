use vstd::prelude::*;

use crate::frame::{Frame, FramePayload};
use crate::packet::{Packet, PacketView, Target};

verus! {

/// The text that UTF-8 decoding of `bytes` gives, each invalid sequence
/// replaced by U+FFFD.
pub uninterp spec fn utf8_lossy(bytes: Seq<u8>) -> Seq<char>;

/// Relies on `String::from_utf8_lossy`: its text depends on the bytes alone,
/// and no bytes give no text.
#[verifier::external_body]
fn text_from_utf8_lossy(bytes: &[u8]) -> (r: String)
    ensures
        r@ == utf8_lossy(bytes@),
        bytes@.len() == 0 ==> r@.len() == 0,
{
    String::from_utf8_lossy(bytes).into_owned()
}

/// The packet that a frame yields: frames of application data without a
/// reaction marker yield one, every other frame none.
pub open spec fn decoded(f: Frame) -> Option<PacketView> {
    match f.payload {
        FramePayload::Decoded { payload, emoji } => {
            if emoji == 0 {
                Some(f.packet_with(utf8_lossy(payload@)))
            } else {
                None
            }
        },
        _ => None,
    }
}

/// The view of an optional packet.
pub open spec fn packet_views(p: Option<Packet>) -> Option<PacketView> {
    match p {
        Some(p) => Some(p@),
        None => None,
    }
}

impl Packet {
    /// The packet for the header of `frame` and the payload bytes `payload`.
    pub fn new(frame: &Frame, payload: &[u8]) -> (r: Packet)
        ensures
            r@ == frame.packet_with(utf8_lossy(payload@)),
    {
        let text = text_from_utf8_lossy(payload);
        Packet::with_text(frame, text)
    }

    /// The packet for the header of `frame` and the text `text`.
    pub fn with_text(frame: &Frame, text: String) -> (r: Packet)
        ensures
            r@ == frame.packet_with(text@),
    {
        let hops_traveled: u8 = if frame.hop_start >= frame.hop_limit {
            frame.hop_start - frame.hop_limit
        } else {
            0
        };
        Packet {
            from: frame.from,
            to: Target::from(frame.to),
            channel: frame.channel,
            id: frame.id,
            via_mqtt: frame.via_mqtt,
            hop_start: frame.hop_start,
            hop_limit: frame.hop_limit,
            hops_traveled,
            payload: text,
        }
    }
}

/// Turns one frame into at most one packet: application data is kept unless
/// it carries a reaction marker; identity, routing and other frames are
/// skipped without error.
pub fn decode(frame: &Frame) -> (r: Option<Packet>)
    ensures
        packet_views(r) == decoded(*frame),
{
    match &frame.payload {
        FramePayload::Decoded { payload, emoji } => {
            if *emoji == 0 {
                Some(Packet::new(frame, payload.as_slice()))
            } else {
                None
            }
        },
        _ => None,
    }
}

} // verus!
