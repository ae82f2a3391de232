use meshtastic_api::frame::{Frame, FramePayload};
use meshtastic_api::listener::{ListenerAction, ListenerEvent, ListenerState, StopReason};
use meshtastic_api::packet::Packet;

fn text_frame(id: u32, body: &str) -> Frame {
    Frame {
        from: 1,
        to: 2,
        channel: 0,
        id,
        via_mqtt: false,
        hop_start: 3,
        hop_limit: 3,
        payload: FramePayload::Decoded { payload: body.as_bytes().to_vec(), emoji: 0 },
    }
}

fn delivered(action: ListenerAction) -> Packet {
    match action {
        ListenerAction::Deliver(p) => p,
        other => panic!("expected a delivery, got {:?}", other),
    }
}

#[test]
fn packets_leave_in_arrival_order() {
    let mut state = ListenerState::new();
    let mut out = Vec::new();
    for (id, body) in [(1u32, "first"), (2, "second"), (3, "third")] {
        out.push(delivered(state.handle(ListenerEvent::Frame(text_frame(id, body)))));
        assert!(matches!(state.handle(ListenerEvent::Delivered), ListenerAction::AwaitFrame));
    }
    let ids: Vec<u32> = out.iter().map(|p| p.id).collect();
    assert_eq!(ids, vec![1, 2, 3]);
    assert_eq!(out[2].payload, "third");
    assert_eq!(state, ListenerState::Listening);
}

#[test]
fn skipped_frames_keep_listening() {
    let mut state = ListenerState::new();
    let mut reaction = text_frame(1, "👍");
    reaction.payload = FramePayload::Decoded { payload: "👍".as_bytes().to_vec(), emoji: 7 };
    assert!(matches!(state.handle(ListenerEvent::Frame(reaction)), ListenerAction::AwaitFrame));
    let mut other = text_frame(2, "");
    other.payload = FramePayload::Other;
    assert!(matches!(state.handle(ListenerEvent::Frame(other)), ListenerAction::AwaitFrame));
    assert_eq!(state, ListenerState::Listening);
}

#[test]
fn full_channel_holds_the_second_packet() {
    let (tx, mut rx) = tokio::sync::mpsc::channel::<Packet>(1);
    let mut state = ListenerState::new();

    let first = delivered(state.handle(ListenerEvent::Frame(text_frame(1, "a"))));
    assert!(tx.try_send(first).is_ok());
    assert!(matches!(state.handle(ListenerEvent::Delivered), ListenerAction::AwaitFrame));

    let second = delivered(state.handle(ListenerEvent::Frame(text_frame(2, "b"))));
    let second = match tx.try_send(second) {
        Err(tokio::sync::mpsc::error::TrySendError::Full(p)) => p,
        _ => panic!("the push must wait while the channel is full"),
    };
    assert_eq!(state, ListenerState::Delivering);
    assert!(matches!(
        state.handle(ListenerEvent::Frame(text_frame(3, "c"))),
        ListenerAction::AwaitDelivery
    ));
    assert_eq!(state, ListenerState::Delivering);

    assert_eq!(rx.try_recv().unwrap().id, 1);
    assert!(tx.try_send(second).is_ok());
    assert!(matches!(state.handle(ListenerEvent::Delivered), ListenerAction::AwaitFrame));
    assert_eq!(rx.try_recv().unwrap().id, 2);
    assert!(rx.try_recv().is_err());
}

#[test]
fn cancellation_stops_before_next_frame() {
    let mut state = ListenerState::new();
    assert!(matches!(
        state.handle(ListenerEvent::Cancelled),
        ListenerAction::Stop(StopReason::Cancelled)
    ));
    assert!(matches!(
        state.handle(ListenerEvent::Frame(text_frame(1, "late"))),
        ListenerAction::Stop(StopReason::Cancelled)
    ));
    assert_eq!(state, ListenerState::Stopped(StopReason::Cancelled));
    assert!(state.is_stopped());
}

#[test]
fn cancellation_during_push_stops() {
    let mut state = ListenerState::new();
    delivered(state.handle(ListenerEvent::Frame(text_frame(1, "a"))));
    assert!(matches!(
        state.handle(ListenerEvent::Cancelled),
        ListenerAction::Stop(StopReason::Cancelled)
    ));
}

#[test]
fn source_end_is_abnormal_stop() {
    let mut state = ListenerState::new();
    assert!(matches!(
        state.handle(ListenerEvent::SourceEnded),
        ListenerAction::Stop(StopReason::SourceExhausted)
    ));
    assert!(matches!(
        state.handle(ListenerEvent::Cancelled),
        ListenerAction::Stop(StopReason::SourceExhausted)
    ));
    assert_eq!(state, ListenerState::Stopped(StopReason::SourceExhausted));
}

#[test]
fn dropped_receiver_stops_the_loop() {
    let (tx, rx) = tokio::sync::mpsc::channel::<Packet>(1);
    drop(rx);
    let mut state = ListenerState::new();
    let p = delivered(state.handle(ListenerEvent::Frame(text_frame(1, "a"))));
    assert!(tx.try_send(p).is_err());
    assert!(matches!(
        state.handle(ListenerEvent::DeliveryFailed),
        ListenerAction::Stop(StopReason::ReceiverDropped)
    ));
    assert!(matches!(
        state.handle(ListenerEvent::Frame(text_frame(2, "b"))),
        ListenerAction::Stop(StopReason::ReceiverDropped)
    ));
}

#[test]
fn unawaited_events_change_nothing() {
    let mut state = ListenerState::new();
    assert!(matches!(state.handle(ListenerEvent::Delivered), ListenerAction::AwaitFrame));
    assert!(matches!(state.handle(ListenerEvent::DeliveryFailed), ListenerAction::AwaitFrame));
    assert_eq!(state, ListenerState::Listening);
}
