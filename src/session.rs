use vstd::prelude::*;

use crate::mesh::fresh_config_id;
use crate::node_id::NodeId;

verus! {

/// Why a session could not be established.
#[derive(Debug)]
pub enum SessionError {
    /// The transport failed to open or to take the configuration.
    Meshtastic(meshtastic::errors::Error),
    /// The identity-wait task could not be joined.
    JoinError(tokio::task::JoinError),
    /// The frame source ended before the device sent its identity record.
    IdentityNotReceived,
}

/// Where the establishment of a session stands.
#[derive(Debug, Clone, Copy, PartialEq, Eq, Structural)]
pub enum EstablishPhase {
    /// Opening the transport.
    Opening,
    /// Starting the task that waits for the identity record.
    StartingWatch,
    /// Sending the configuration and awaiting its acknowledgement.
    Configuring,
    /// Awaiting the identity-wait task.
    AwaitingIdentity,
    /// Starting the listener for the identified node.
    StartingListener(NodeId),
    /// The session is up.
    Ready(NodeId),
    /// Establishment failed.
    Failed,
}

/// What the caller observed while establishing a session.
#[derive(Debug)]
pub enum EstablishEvent {
    /// The transport is open and its frame source available.
    Opened,
    /// The identity-wait task is running on the frame source.
    WatchStarted,
    /// The device acknowledged the configuration.
    Configured,
    /// The identity-wait task ended with the device's identity.
    IdentityReceived(NodeId),
    /// The listener task is running.
    ListenerStarted,
    /// A step failed.
    Failed(SessionError),
}

/// What the caller is to do next while establishing a session.
#[derive(Debug)]
pub enum EstablishAction {
    /// Start the identity-wait task on the frame source.
    WatchIdentity,
    /// Send the configuration with this id.
    Configure(u32),
    /// Await the identity-wait task, which hands the frame source back.
    AwaitIdentity,
    /// Start the listener on the frame source handed back.
    StartListener,
    /// The session for this node is established.
    Finish(NodeId),
    /// Give up with this error.
    Fail(SessionError),
    /// Nothing: the event was not awaited in this phase.
    Ignore,
}

/// Whether a phase is over, for good or ill.
pub open spec fn is_final(p: EstablishPhase) -> bool {
    p is Ready || p is Failed
}

/// One step of establishment: the phase after event `e` and the action asked
/// for, where `config_id` is the freshly drawn configuration id.
pub open spec fn establish_next(p: EstablishPhase, e: EstablishEvent, config_id: u32) -> (
    EstablishPhase,
    EstablishAction,
) {
    if is_final(p) {
        (p, EstablishAction::Ignore)
    } else {
        match e {
            EstablishEvent::Failed(err) => (EstablishPhase::Failed, EstablishAction::Fail(err)),
            EstablishEvent::Opened => if p is Opening {
                (EstablishPhase::StartingWatch, EstablishAction::WatchIdentity)
            } else {
                (p, EstablishAction::Ignore)
            },
            EstablishEvent::WatchStarted => if p is StartingWatch {
                (EstablishPhase::Configuring, EstablishAction::Configure(config_id))
            } else {
                (p, EstablishAction::Ignore)
            },
            EstablishEvent::Configured => if p is Configuring {
                (EstablishPhase::AwaitingIdentity, EstablishAction::AwaitIdentity)
            } else {
                (p, EstablishAction::Ignore)
            },
            EstablishEvent::IdentityReceived(id) => if p is AwaitingIdentity {
                (EstablishPhase::StartingListener(id), EstablishAction::StartListener)
            } else {
                (p, EstablishAction::Ignore)
            },
            EstablishEvent::ListenerStarted => match p {
                EstablishPhase::StartingListener(id) => (
                    EstablishPhase::Ready(id),
                    EstablishAction::Finish(id),
                ),
                _ => (p, EstablishAction::Ignore),
            },
        }
    }
}

impl EstablishPhase {
    /// Establishment starts by opening the transport.
    pub fn new() -> (r: EstablishPhase)
        ensures
            r == EstablishPhase::Opening,
    {
        EstablishPhase::Opening
    }

    /// Takes in what the caller observed and says what to do next. The
    /// configuration id is drawn at random each time one is sent.
    pub fn handle(&mut self, e: EstablishEvent) -> (r: EstablishAction)
        ensures
            exists|id: u32| (*final(self), r) == #[trigger] establish_next(*old(self), e, id),
    {
        let sends_configuration = matches!(*self, EstablishPhase::StartingWatch) && matches!(
            e,
            EstablishEvent::WatchStarted
        );
        let config_id: u32 = if sends_configuration {
            fresh_config_id()
        } else {
            0
        };
        let (p, a) = Self::advance(*self, e, config_id);
        *self = p;
        a
    }

    /// One step of establishment for a given configuration id.
    pub fn advance(p: EstablishPhase, e: EstablishEvent, config_id: u32) -> (r: (
        EstablishPhase,
        EstablishAction,
    ))
        ensures
            r == establish_next(p, e, config_id),
    {
        if matches!(p, EstablishPhase::Ready(_) | EstablishPhase::Failed) {
            return (p, EstablishAction::Ignore);
        }
        match e {
            EstablishEvent::Failed(err) => (EstablishPhase::Failed, EstablishAction::Fail(err)),
            EstablishEvent::Opened => match p {
                EstablishPhase::Opening => (
                    EstablishPhase::StartingWatch,
                    EstablishAction::WatchIdentity,
                ),
                _ => (p, EstablishAction::Ignore),
            },
            EstablishEvent::WatchStarted => match p {
                EstablishPhase::StartingWatch => (
                    EstablishPhase::Configuring,
                    EstablishAction::Configure(config_id),
                ),
                _ => (p, EstablishAction::Ignore),
            },
            EstablishEvent::Configured => match p {
                EstablishPhase::Configuring => (
                    EstablishPhase::AwaitingIdentity,
                    EstablishAction::AwaitIdentity,
                ),
                _ => (p, EstablishAction::Ignore),
            },
            EstablishEvent::IdentityReceived(id) => match p {
                EstablishPhase::AwaitingIdentity => (
                    EstablishPhase::StartingListener(id),
                    EstablishAction::StartListener,
                ),
                _ => (p, EstablishAction::Ignore),
            },
            EstablishEvent::ListenerStarted => match p {
                EstablishPhase::StartingListener(id) => (
                    EstablishPhase::Ready(id),
                    EstablishAction::Finish(id),
                ),
                _ => (p, EstablishAction::Ignore),
            },
        }
    }
}

/// The phases, after the transport is open, in which the identity-wait task
/// has been started.
pub open spec fn watch_started(p: EstablishPhase) -> bool {
    p is StartingWatch || p is Configuring || p is AwaitingIdentity || p is StartingListener
        || p is Ready
}

/// The phase after the events `evs`, from phase `p`, and the actions asked
/// for on the way, with `config_id` as the configuration id drawn.
pub open spec fn establish_run(p: EstablishPhase, evs: Seq<EstablishEvent>, config_id: u32) -> (
    EstablishPhase,
    Seq<EstablishAction>,
)
    decreases evs.len(),
{
    if evs.len() == 0 {
        (p, Seq::empty())
    } else {
        let (p1, a) = establish_next(p, evs[0], config_id);
        let (p2, rest) = establish_run(p1, evs.drop_first(), config_id);
        (p2, seq![a] + rest)
    }
}

proof fn lemma_watch_precedes_configure_from(p: EstablishPhase, evs: Seq<EstablishEvent>, config_id: u32)
    ensures
        forall|i: int|
            0 <= i < establish_run(p, evs, config_id).1.len() && (
            #[trigger] establish_run(p, evs, config_id).1[i]) is Configure ==> watch_started(p)
                || exists|j: int| 0 <= j < i && establish_run(p, evs, config_id).1[j] is WatchIdentity,
    decreases evs.len(),
{
    if evs.len() > 0 {
        let (p1, a) = establish_next(p, evs[0], config_id);
        let rest = establish_run(p1, evs.drop_first(), config_id).1;
        let acts = establish_run(p, evs, config_id).1;
        assert(acts == seq![a] + rest);
        lemma_watch_precedes_configure_from(p1, evs.drop_first(), config_id);
        assert forall|i: int| 0 <= i < acts.len() && (#[trigger] acts[i]) is Configure implies watch_started(p)
            || exists|j: int| 0 <= j < i && acts[j] is WatchIdentity by {
            if i > 0 && !watch_started(p) {
                assert(rest[i - 1] == acts[i]);
                if watch_started(p1) {
                    assert(acts[0] is WatchIdentity);
                } else {
                    let j = choose|j: int| 0 <= j < i - 1 && rest[j] is WatchIdentity;
                    assert(acts[j + 1] == rest[j]);
                }
            }
        }
    }
}

/// The identity-wait task is started before the configuration is sent: in
/// every run from the start, each `Configure` action comes after a
/// `WatchIdentity` action, so an identity record sent as soon as the link
/// opens is not missed.
pub proof fn lemma_watch_precedes_configure(evs: Seq<EstablishEvent>, config_id: u32)
    ensures
        forall|i: int|
            0 <= i < establish_run(EstablishPhase::Opening, evs, config_id).1.len() && (
            #[trigger] establish_run(EstablishPhase::Opening, evs, config_id).1[i]) is Configure
                ==> exists|j: int|
                0 <= j < i && establish_run(EstablishPhase::Opening, evs, config_id).1[j] is WatchIdentity,
{
    lemma_watch_precedes_configure_from(EstablishPhase::Opening, evs, config_id);
}

proof fn lemma_establish_run_len(p: EstablishPhase, evs: Seq<EstablishEvent>, config_id: u32)
    ensures
        establish_run(p, evs, config_id).1.len() == evs.len(),
    decreases evs.len(),
{
    if evs.len() > 0 {
        let (p1, a) = establish_next(p, evs[0], config_id);
        lemma_establish_run_len(p1, evs.drop_first(), config_id);
    }
}

/// The node that a `Finish` action names.
pub open spec fn finished_node(a: EstablishAction) -> NodeId {
    a->Finish_0
}

proof fn lemma_finish_follows_identity_from(p: EstablishPhase, evs: Seq<EstablishEvent>, config_id: u32)
    ensures
        forall|i: int|
            0 <= i < evs.len() && (#[trigger] establish_run(p, evs, config_id).1[i]) is Finish ==> {
                let n = finished_node(establish_run(p, evs, config_id).1[i]);
                p == EstablishPhase::StartingListener(n) || exists|j: int|
                    0 <= j < i && evs[j] == EstablishEvent::IdentityReceived(n)
            },
    decreases evs.len(),
{
    if evs.len() > 0 {
        let (p1, a) = establish_next(p, evs[0], config_id);
        let rest_evs = evs.drop_first();
        let rest = establish_run(p1, rest_evs, config_id).1;
        let acts = establish_run(p, evs, config_id).1;
        assert(acts == seq![a] + rest);
        lemma_establish_run_len(p1, rest_evs, config_id);
        lemma_finish_follows_identity_from(p1, rest_evs, config_id);
        assert forall|i: int| 0 <= i < evs.len() && (#[trigger] acts[i]) is Finish implies {
            let n = finished_node(acts[i]);
            p == EstablishPhase::StartingListener(n) || exists|j: int|
                0 <= j < i && evs[j] == EstablishEvent::IdentityReceived(n)
        } by {
            let n = finished_node(acts[i]);
            if i > 0 && p != EstablishPhase::StartingListener(n) {
                assert(rest[i - 1] == acts[i]);
                if p1 == EstablishPhase::StartingListener(n) {
                    assert(evs[0] == EstablishEvent::IdentityReceived(n));
                } else {
                    let j = choose|j: int| 0 <= j < i - 1 && rest_evs[j] == EstablishEvent::IdentityReceived(n);
                    assert(evs[j + 1] == rest_evs[j]);
                }
            }
        }
    }
}

/// A session is finished only for a node whose identity the device sent:
/// each `Finish(n)` action answers an earlier `IdentityReceived(n)` event.
pub proof fn lemma_finish_follows_identity(evs: Seq<EstablishEvent>, config_id: u32)
    ensures
        forall|i: int|
            0 <= i < evs.len() && (#[trigger] establish_run(EstablishPhase::Opening, evs, config_id).1[i]) is Finish
                ==> exists|j: int|
                0 <= j < i && evs[j] == EstablishEvent::IdentityReceived(
                    finished_node(establish_run(EstablishPhase::Opening, evs, config_id).1[i]),
                ),
{
    lemma_finish_follows_identity_from(EstablishPhase::Opening, evs, config_id);
}

/// The next step of tearing a session down. Every step is taken, whatever
/// the earlier ones gave.
#[derive(Debug, Clone, Copy, PartialEq, Eq, Structural)]
pub enum ShutdownStep {
    /// Send the cancellation signal to the listener.
    Cancel,
    /// Disconnect the transport.
    DisconnectTransport,
    /// Await the listener task's end.
    JoinListener,
    /// Teardown is complete.
    Done,
}

/// A fault met during teardown; it is reported and teardown goes on.
#[derive(Debug, Clone, Copy, PartialEq, Eq, Structural)]
pub enum ShutdownWarning {
    /// The cancellation signal had no receiver: the listener had stopped.
    ListenerAlreadyStopped,
    /// The transport failed to disconnect.
    DisconnectFailed,
    /// The listener task ended abnormally.
    ListenerJoinFailed,
}

/// The step after `s` whose outcome was `succeeded`, and the warning that
/// outcome raises.
pub open spec fn shutdown_next(s: ShutdownStep, succeeded: bool) -> (ShutdownStep, Option<ShutdownWarning>) {
    match s {
        ShutdownStep::Cancel => (
            ShutdownStep::DisconnectTransport,
            if succeeded { None } else { Some(ShutdownWarning::ListenerAlreadyStopped) },
        ),
        ShutdownStep::DisconnectTransport => (
            ShutdownStep::JoinListener,
            if succeeded { None } else { Some(ShutdownWarning::DisconnectFailed) },
        ),
        ShutdownStep::JoinListener => (
            ShutdownStep::Done,
            if succeeded { None } else { Some(ShutdownWarning::ListenerJoinFailed) },
        ),
        ShutdownStep::Done => (ShutdownStep::Done, None),
    }
}

/// The step reached from `s` after the outcomes `outcomes`.
pub open spec fn shutdown_run(s: ShutdownStep, outcomes: Seq<bool>) -> ShutdownStep
    decreases outcomes.len(),
{
    if outcomes.len() == 0 {
        s
    } else {
        shutdown_run(shutdown_next(s, outcomes[0]).0, outcomes.drop_first())
    }
}

impl ShutdownStep {
    /// Teardown starts with the cancellation signal.
    pub fn start() -> (r: ShutdownStep)
        ensures
            r == ShutdownStep::Cancel,
    {
        ShutdownStep::Cancel
    }

    pub fn is_done(&self) -> (r: bool)
        ensures
            r == (*self == ShutdownStep::Done),
    {
        matches!(self, ShutdownStep::Done)
    }

    /// Records whether the current step succeeded and moves on to the next;
    /// a failure is returned as a warning, never as an error.
    pub fn record(&mut self, succeeded: bool) -> (r: Option<ShutdownWarning>)
        ensures
            (*final(self), r) == shutdown_next(*old(self), succeeded),
    {
        match *self {
            ShutdownStep::Cancel => {
                *self = ShutdownStep::DisconnectTransport;
                if succeeded {
                    None
                } else {
                    Some(ShutdownWarning::ListenerAlreadyStopped)
                }
            },
            ShutdownStep::DisconnectTransport => {
                *self = ShutdownStep::JoinListener;
                if succeeded {
                    None
                } else {
                    Some(ShutdownWarning::DisconnectFailed)
                }
            },
            ShutdownStep::JoinListener => {
                *self = ShutdownStep::Done;
                if succeeded {
                    None
                } else {
                    Some(ShutdownWarning::ListenerJoinFailed)
                }
            },
            ShutdownStep::Done => None,
        }
    }
}

impl ShutdownWarning {
    /// A line for the log.
    pub fn message(&self) -> &'static str {
        match self {
            ShutdownWarning::ListenerAlreadyStopped => "All tasks have stopped already.",
            ShutdownWarning::DisconnectFailed => "Failed to disconnect from the device.",
            ShutdownWarning::ListenerJoinFailed => "The listener task shut down unexpectedly.",
        }
    }
}

/// Teardown always completes: whatever each of its three steps gives, a
/// cancellation signal without receiver because the listener already
/// stopped included, it is done after them and stays done.
pub proof fn lemma_shutdown_completes(cancel: bool, disconnect: bool, join: bool, more: Seq<bool>)
    ensures
        shutdown_run(ShutdownStep::Cancel, seq![cancel, disconnect, join] + more) == ShutdownStep::Done,
{
    let all = seq![cancel, disconnect, join] + more;
    assert(all.drop_first() =~= seq![disconnect, join] + more);
    assert(all.drop_first().drop_first() =~= seq![join] + more);
    assert(all.drop_first().drop_first().drop_first() =~= more);
    lemma_done_stays_done(more);
    assert(shutdown_run(ShutdownStep::JoinListener, all.drop_first().drop_first()) == ShutdownStep::Done);
    assert(shutdown_run(ShutdownStep::DisconnectTransport, all.drop_first()) == ShutdownStep::Done);
}

proof fn lemma_done_stays_done(outcomes: Seq<bool>)
    ensures
        shutdown_run(ShutdownStep::Done, outcomes) == ShutdownStep::Done,
    decreases outcomes.len(),
{
    if outcomes.len() > 0 {
        lemma_done_stays_done(outcomes.drop_first());
    }
}

} // verus!
