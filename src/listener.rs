use vstd::prelude::*;

use crate::frame::Frame;
use crate::packet::{Packet, PacketView};
use crate::decoder::{decode, decoded};

verus! {

/// Why the listener stopped.
#[derive(Debug, Clone, Copy, PartialEq, Eq, Structural)]
pub enum StopReason {
    /// The cancellation signal came: a graceful stop.
    Cancelled,
    /// The frame source ended, the device is gone: an abnormal stop.
    SourceExhausted,
    /// No consumer of packets remains: delivery is unavailable.
    ReceiverDropped,
}

/// Where the listener stands.
#[derive(Debug, Clone, Copy, PartialEq, Eq, Structural)]
pub enum ListenerState {
    /// Waiting for the next frame or the cancellation signal.
    Listening,
    /// Waiting for a packet's push onto the outbound channel to complete, or
    /// for the cancellation signal. No frame is read meanwhile.
    Delivering,
    /// The loop has ended.
    Stopped(StopReason),
}

/// What the listener's caller observed.
#[derive(Debug, Clone)]
pub enum ListenerEvent {
    /// The cancellation signal arrived.
    Cancelled,
    /// The next frame arrived.
    Frame(Frame),
    /// The frame source ended.
    SourceEnded,
    /// The pending push onto the outbound channel completed.
    Delivered,
    /// The pending push failed: the receiving side is gone.
    DeliveryFailed,
}

/// What the listener asks its caller to do next.
#[derive(Debug, Clone)]
pub enum ListenerAction {
    /// Wait for the next frame, racing the cancellation signal.
    AwaitFrame,
    /// Push this packet onto the outbound channel, racing the cancellation
    /// signal; the push waits while the channel is full.
    Deliver(Packet),
    /// Keep waiting for the pending push.
    AwaitDelivery,
    /// End the loop.
    Stop(StopReason),
}

/// A `ListenerAction` with its packet seen as a `PacketView`.
pub enum ActionView {
    AwaitFrame,
    Deliver(PacketView),
    AwaitDelivery,
    Stop(StopReason),
}

impl View for ListenerAction {
    type V = ActionView;

    open spec fn view(&self) -> ActionView {
        match self {
            ListenerAction::AwaitFrame => ActionView::AwaitFrame,
            ListenerAction::Deliver(p) => ActionView::Deliver(p@),
            ListenerAction::AwaitDelivery => ActionView::AwaitDelivery,
            ListenerAction::Stop(r) => ActionView::Stop(*r),
        }
    }
}

/// One step of the listener: the state after event `e` and the action asked
/// for. An event that the current state does not wait for changes nothing.
pub open spec fn next(s: ListenerState, e: ListenerEvent) -> (ListenerState, ActionView) {
    match s {
        ListenerState::Listening => match e {
            ListenerEvent::Cancelled => (
                ListenerState::Stopped(StopReason::Cancelled),
                ActionView::Stop(StopReason::Cancelled),
            ),
            ListenerEvent::Frame(f) => match decoded(f) {
                Some(p) => (ListenerState::Delivering, ActionView::Deliver(p)),
                None => (ListenerState::Listening, ActionView::AwaitFrame),
            },
            ListenerEvent::SourceEnded => (
                ListenerState::Stopped(StopReason::SourceExhausted),
                ActionView::Stop(StopReason::SourceExhausted),
            ),
            _ => (ListenerState::Listening, ActionView::AwaitFrame),
        },
        ListenerState::Delivering => match e {
            ListenerEvent::Cancelled => (
                ListenerState::Stopped(StopReason::Cancelled),
                ActionView::Stop(StopReason::Cancelled),
            ),
            ListenerEvent::Delivered => (ListenerState::Listening, ActionView::AwaitFrame),
            ListenerEvent::DeliveryFailed => (
                ListenerState::Stopped(StopReason::ReceiverDropped),
                ActionView::Stop(StopReason::ReceiverDropped),
            ),
            _ => (ListenerState::Delivering, ActionView::AwaitDelivery),
        },
        ListenerState::Stopped(r) => (ListenerState::Stopped(r), ActionView::Stop(r)),
    }
}

/// The packets that an action hands to the outbound channel.
pub open spec fn handed_over(a: ActionView) -> Seq<PacketView> {
    match a {
        ActionView::Deliver(p) => seq![p],
        _ => Seq::empty(),
    }
}

/// The state after the events `evs`, from state `s`, and the packets handed
/// to the outbound channel on the way, in order.
pub open spec fn run(s: ListenerState, evs: Seq<ListenerEvent>) -> (ListenerState, Seq<PacketView>)
    decreases evs.len(),
{
    if evs.len() == 0 {
        (s, Seq::empty())
    } else {
        let (s1, a) = next(s, evs[0]);
        let (s2, out) = run(s1, evs.drop_first());
        (s2, handed_over(a) + out)
    }
}

/// The events of frames that arrive one after another, each push completing
/// before the next frame comes.
pub open spec fn arrivals(fs: Seq<Frame>) -> Seq<ListenerEvent>
    decreases fs.len(),
{
    if fs.len() == 0 {
        Seq::empty()
    } else {
        let first = if decoded(fs[0]) is Some {
            seq![ListenerEvent::Frame(fs[0]), ListenerEvent::Delivered]
        } else {
            seq![ListenerEvent::Frame(fs[0])]
        };
        first + arrivals(fs.drop_first())
    }
}

/// The packets that the frames `fs` yield, in the frames' order.
pub open spec fn decoded_all(fs: Seq<Frame>) -> Seq<PacketView>
    decreases fs.len(),
{
    if fs.len() == 0 {
        Seq::empty()
    } else {
        let first = match decoded(fs[0]) {
            Some(p) => seq![p],
            None => Seq::empty(),
        };
        first + decoded_all(fs.drop_first())
    }
}

impl ListenerState {
    /// A listener that waits for its first frame.
    pub fn new() -> (r: ListenerState)
        ensures
            r == ListenerState::Listening,
    {
        ListenerState::Listening
    }

    pub fn is_stopped(&self) -> (r: bool)
        ensures
            r == (*self is Stopped),
    {
        matches!(self, ListenerState::Stopped(_))
    }

    /// Takes in what the caller observed and says what to do next.
    pub fn handle(&mut self, e: ListenerEvent) -> (r: ListenerAction)
        ensures
            (*final(self), r@) == next(*old(self), e),
    {
        match *self {
            ListenerState::Listening => match e {
                ListenerEvent::Cancelled => {
                    *self = ListenerState::Stopped(StopReason::Cancelled);
                    ListenerAction::Stop(StopReason::Cancelled)
                },
                ListenerEvent::Frame(f) => match decode(&f) {
                    Some(p) => {
                        *self = ListenerState::Delivering;
                        ListenerAction::Deliver(p)
                    },
                    None => ListenerAction::AwaitFrame,
                },
                ListenerEvent::SourceEnded => {
                    *self = ListenerState::Stopped(StopReason::SourceExhausted);
                    ListenerAction::Stop(StopReason::SourceExhausted)
                },
                _ => ListenerAction::AwaitFrame,
            },
            ListenerState::Delivering => match e {
                ListenerEvent::Cancelled => {
                    *self = ListenerState::Stopped(StopReason::Cancelled);
                    ListenerAction::Stop(StopReason::Cancelled)
                },
                ListenerEvent::Delivered => {
                    *self = ListenerState::Listening;
                    ListenerAction::AwaitFrame
                },
                ListenerEvent::DeliveryFailed => {
                    *self = ListenerState::Stopped(StopReason::ReceiverDropped);
                    ListenerAction::Stop(StopReason::ReceiverDropped)
                },
                _ => ListenerAction::AwaitDelivery,
            },
            ListenerState::Stopped(r) => ListenerAction::Stop(r),
        }
    }
}

/// Running two stretches of events one after the other is running their
/// concatenation.
pub proof fn lemma_run_concat(s: ListenerState, a: Seq<ListenerEvent>, b: Seq<ListenerEvent>)
    ensures
        run(s, a + b) == (run(run(s, a).0, b).0, run(s, a).1 + run(run(s, a).0, b).1),
    decreases a.len(),
{
    if a.len() == 0 {
        assert(a + b =~= b);
        assert(Seq::<PacketView>::empty() + run(s, b).1 =~= run(s, b).1);
    } else {
        let (s1, act) = next(s, a[0]);
        assert((a + b)[0] == a[0]);
        assert((a + b).drop_first() =~= a.drop_first() + b);
        lemma_run_concat(s1, a.drop_first(), b);
        let mid = run(s1, a.drop_first());
        let end = run(mid.0, b);
        assert(handed_over(act) + (mid.1 + end.1) =~= (handed_over(act) + mid.1) + end.1);
    }
}

/// Frames that arrive in some order reach the outbound channel as packets in
/// that same order: nothing is reordered, dropped or duplicated, and the
/// loop is listening again afterwards.
pub proof fn lemma_delivery_in_arrival_order(fs: Seq<Frame>)
    ensures
        run(ListenerState::Listening, arrivals(fs)) == (ListenerState::Listening, decoded_all(fs)),
    decreases fs.len(),
{
    if fs.len() > 0 {
        let f = fs[0];
        let first = if decoded(f) is Some {
            seq![ListenerEvent::Frame(f), ListenerEvent::Delivered]
        } else {
            seq![ListenerEvent::Frame(f)]
        };
        assert(arrivals(fs) == first + arrivals(fs.drop_first()));
        lemma_run_concat(ListenerState::Listening, first, arrivals(fs.drop_first()));
        lemma_delivery_in_arrival_order(fs.drop_first());
        if decoded(f) is Some {
            assert(first.drop_first() =~= seq![ListenerEvent::Delivered]);
            assert(first.drop_first().drop_first() =~= Seq::<ListenerEvent>::empty());
            let p = decoded(f)->Some_0;
            let tail = first.drop_first();
            assert(run(ListenerState::Listening, tail.drop_first()) == (
                ListenerState::Listening,
                Seq::<PacketView>::empty(),
            ));
            assert(run(ListenerState::Delivering, tail).1 =~= Seq::<PacketView>::empty());
            assert(run(ListenerState::Delivering, tail).0 == ListenerState::Listening);
            assert(run(ListenerState::Listening, first).1 =~= seq![p]);
        } else {
            assert(first.drop_first() =~= Seq::<ListenerEvent>::empty());
            assert(run(ListenerState::Listening, first.drop_first()) == (
                ListenerState::Listening,
                Seq::<PacketView>::empty(),
            ));
            assert(run(ListenerState::Listening, first).1 =~= Seq::<PacketView>::empty());
        }
    }
}

/// A stopped listener stays stopped, for the same reason, and hands over no
/// packet, whatever comes after; a second cancellation changes nothing.
pub proof fn lemma_stopped_stays_stopped(r: StopReason, evs: Seq<ListenerEvent>)
    ensures
        run(ListenerState::Stopped(r), evs) == (ListenerState::Stopped(r), Seq::<PacketView>::empty()),
    decreases evs.len(),
{
    if evs.len() > 0 {
        lemma_stopped_stays_stopped(r, evs.drop_first());
        assert(Seq::<PacketView>::empty() + Seq::<PacketView>::empty() =~= Seq::<PacketView>::empty());
    }
}

/// The cancellation signal, arriving while the listener waits for a frame,
/// stops it gracefully: no frame that comes afterwards is decoded.
pub proof fn lemma_cancel_stops_decoding(evs: Seq<ListenerEvent>)
    ensures
        run(ListenerState::Listening, seq![ListenerEvent::Cancelled] + evs) == (
            ListenerState::Stopped(StopReason::Cancelled),
            Seq::<PacketView>::empty(),
        ),
{
    let all = seq![ListenerEvent::Cancelled] + evs;
    assert(all[0] == ListenerEvent::Cancelled);
    assert(all.drop_first() =~= evs);
    lemma_stopped_stays_stopped(StopReason::Cancelled, evs);
    assert(Seq::<PacketView>::empty() + Seq::<PacketView>::empty() =~= Seq::<PacketView>::empty());
}

/// An event that settles a pending push: its completion, its failure, or
/// cancellation.
pub open spec fn settles_delivery(e: ListenerEvent) -> bool {
    e is Delivered || e is DeliveryFailed || e is Cancelled
}

/// While a push waits for room on the outbound channel, the listener reads
/// and decodes no further frame and hands over no further packet; only the
/// push's completion lets it listen again.
pub proof fn lemma_delivery_holds_the_loop(evs: Seq<ListenerEvent>)
    requires
        forall|i: int| 0 <= i < evs.len() ==> !settles_delivery(#[trigger] evs[i]),
    ensures
        run(ListenerState::Delivering, evs) == (ListenerState::Delivering, Seq::<PacketView>::empty()),
        next(ListenerState::Delivering, ListenerEvent::Delivered) == (
            ListenerState::Listening,
            ActionView::AwaitFrame,
        ),
    decreases evs.len(),
{
    if evs.len() > 0 {
        assert(!settles_delivery(evs[0]));
        let rest = evs.drop_first();
        assert forall|i: int| 0 <= i < rest.len() implies !settles_delivery(#[trigger] rest[i]) by {
            assert(rest[i] == evs[i + 1]);
        }
        lemma_delivery_holds_the_loop(rest);
        assert(Seq::<PacketView>::empty() + Seq::<PacketView>::empty() =~= Seq::<PacketView>::empty());
    }
}

} // verus!
