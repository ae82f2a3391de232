use meshtastic_api::frame::{Frame, FramePayload};
use meshtastic_api::handshake::{await_identity, identity_of, IdentityWait};
use meshtastic_api::node_id::NodeId;
use meshtastic_api::session::{
    EstablishAction, EstablishEvent, EstablishPhase, SessionError, ShutdownStep, ShutdownWarning,
};

fn frame(payload: FramePayload) -> Frame {
    Frame {
        from: 0,
        to: 0,
        channel: 0,
        id: 0,
        via_mqtt: false,
        hop_start: 0,
        hop_limit: 0,
        payload,
    }
}

#[test]
fn identity_record_ends_the_wait() {
    let f = frame(FramePayload::Identity { node_num: 0xABCD });
    assert_eq!(identity_of(&f), Some(NodeId(0xABCD)));
    assert_eq!(await_identity(&Some(f)), IdentityWait::Identified(NodeId(0xABCD)));
}

#[test]
fn other_frames_keep_waiting() {
    let text = frame(FramePayload::Decoded { payload: b"hi".to_vec(), emoji: 0 });
    assert_eq!(identity_of(&text), None);
    assert_eq!(await_identity(&Some(text)), IdentityWait::Waiting);
    assert_eq!(await_identity(&Some(frame(FramePayload::Other))), IdentityWait::Waiting);
}

#[test]
fn source_end_loses_identity() {
    assert_eq!(await_identity(&None), IdentityWait::Lost);
}

#[test]
fn establishment_runs_in_order() {
    let mut phase = EstablishPhase::new();
    assert!(matches!(phase.handle(EstablishEvent::Opened), EstablishAction::WatchIdentity));
    assert_eq!(phase, EstablishPhase::StartingWatch);
    assert!(matches!(phase.handle(EstablishEvent::WatchStarted), EstablishAction::Configure(_)));
    assert_eq!(phase, EstablishPhase::Configuring);
    assert!(matches!(phase.handle(EstablishEvent::Configured), EstablishAction::AwaitIdentity));
    assert!(matches!(
        phase.handle(EstablishEvent::IdentityReceived(NodeId(5))),
        EstablishAction::StartListener
    ));
    assert!(matches!(
        phase.handle(EstablishEvent::ListenerStarted),
        EstablishAction::Finish(NodeId(5))
    ));
    assert_eq!(phase, EstablishPhase::Ready(NodeId(5)));
    assert!(matches!(phase.handle(EstablishEvent::Opened), EstablishAction::Ignore));
}

#[test]
fn configure_is_not_sent_before_the_watch() {
    let mut phase = EstablishPhase::new();
    assert!(matches!(phase.handle(EstablishEvent::WatchStarted), EstablishAction::Ignore));
    assert!(matches!(phase.handle(EstablishEvent::Configured), EstablishAction::Ignore));
    assert_eq!(phase, EstablishPhase::Opening);
}

#[test]
fn advance_uses_the_given_config_id() {
    let (p, a) = EstablishPhase::advance(EstablishPhase::StartingWatch, EstablishEvent::WatchStarted, 77);
    assert_eq!(p, EstablishPhase::Configuring);
    assert!(matches!(a, EstablishAction::Configure(77)));
}

#[test]
fn missing_identity_fails_establishment() {
    let mut phase = EstablishPhase::AwaitingIdentity;
    let a = phase.handle(EstablishEvent::Failed(SessionError::IdentityNotReceived));
    assert!(matches!(a, EstablishAction::Fail(SessionError::IdentityNotReceived)));
    assert_eq!(phase, EstablishPhase::Failed);
    assert!(matches!(phase.handle(EstablishEvent::ListenerStarted), EstablishAction::Ignore));
}

#[test]
fn disconnect_after_listener_stopped_completes() {
    let mut step = ShutdownStep::start();
    assert_eq!(step, ShutdownStep::Cancel);
    assert_eq!(step.record(false), Some(ShutdownWarning::ListenerAlreadyStopped));
    assert_eq!(step, ShutdownStep::DisconnectTransport);
    assert_eq!(step.record(true), None);
    assert_eq!(step.record(true), None);
    assert!(step.is_done());
    assert_eq!(step.record(false), None);
    assert!(step.is_done());
}

#[test]
fn every_shutdown_fault_is_a_warning() {
    let mut step = ShutdownStep::start();
    assert_eq!(step.record(false), Some(ShutdownWarning::ListenerAlreadyStopped));
    assert_eq!(step.record(false), Some(ShutdownWarning::DisconnectFailed));
    assert_eq!(step.record(false), Some(ShutdownWarning::ListenerJoinFailed));
    assert!(step.is_done());
    assert_eq!(ShutdownWarning::ListenerAlreadyStopped.message(), "All tasks have stopped already.");
}
