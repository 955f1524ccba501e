//! The listener's decisions: which accept results it survives, and how a
//! freshly accepted connection is brought up to a bridged session.
//!
//! A connection's handshake and backend dial run in that connection's own
//! unit of work, so their failures reach only its `Setup` and never the
//! listener.

use vstd::prelude::*;

verus! {

/// Whether the listener still accepts connections.
#[derive(Clone, Copy, Debug, PartialEq, Eq, Structural)]
pub enum ListenerState {
    Listening,
    Stopped,
}

/// The result of one accept on the listening socket.
#[derive(Clone, Copy, Debug, PartialEq, Eq, Structural)]
pub enum AcceptEvent {
    /// A transport connection arrived.
    Accepted,
    /// This attempt failed; the listening socket is still usable.
    AcceptFailed,
    /// The listening socket itself is no longer usable.
    ListenerFailed,
}

/// What the listener does after an accept.
#[derive(Clone, Copy, Debug, PartialEq, Eq, Structural)]
pub enum AcceptAction {
    /// Start the connection's own unit of work and accept the next one at once.
    Spawn,
    /// Skip this attempt and accept the next one.
    Skip,
    /// Stop the process: the relay cannot run without its listener.
    Fatal,
}

/// The listener's decision on one accept result.
pub open spec fn on_accept_spec(state: ListenerState, ev: AcceptEvent) -> (ListenerState, AcceptAction) {
    match state {
        ListenerState::Stopped => (ListenerState::Stopped, AcceptAction::Fatal),
        ListenerState::Listening => match ev {
            AcceptEvent::Accepted => (ListenerState::Listening, AcceptAction::Spawn),
            AcceptEvent::AcceptFailed => (ListenerState::Listening, AcceptAction::Skip),
            AcceptEvent::ListenerFailed => (ListenerState::Stopped, AcceptAction::Fatal),
        },
    }
}

/// Decides what the listener does with one accept result: a connection is
/// spawned, a failed attempt skipped, a broken listener is fatal.
pub fn on_accept(state: &mut ListenerState, ev: AcceptEvent) -> (r: AcceptAction)
    ensures
        (*final(state), r) == on_accept_spec(*old(state), ev),
{
    match *state {
        ListenerState::Stopped => AcceptAction::Fatal,
        ListenerState::Listening => match ev {
            AcceptEvent::Accepted => AcceptAction::Spawn,
            AcceptEvent::AcceptFailed => AcceptAction::Skip,
            AcceptEvent::ListenerFailed => {
                *state = ListenerState::Stopped;
                AcceptAction::Fatal
            },
        },
    }
}

/// The listener run over a sequence of accept results: its final state and
/// the action taken on each.
pub open spec fn accept_run(state: ListenerState, evs: Seq<AcceptEvent>) -> (ListenerState, Seq<AcceptAction>)
    decreases evs.len(),
{
    if evs.len() == 0 {
        (state, Seq::empty())
    } else {
        let (next, a) = on_accept_spec(state, evs[0]);
        let (last, rest) = accept_run(next, evs.drop_first());
        (last, seq![a] + rest)
    }
}

/// Failed attempts never stop the listener: as long as the listening socket
/// stays usable it keeps listening, and every connection that arrives, after
/// however many failures, is spawned.
pub proof fn lemma_acceptor_resilience(evs: Seq<AcceptEvent>)
    requires
        forall|i: int| 0 <= i < evs.len() ==> evs[i] != AcceptEvent::ListenerFailed,
    ensures
        accept_run(ListenerState::Listening, evs).0 == ListenerState::Listening,
        accept_run(ListenerState::Listening, evs).1.len() == evs.len(),
        forall|i: int|
            0 <= i < evs.len() ==> (accept_run(ListenerState::Listening, evs).1[i] == AcceptAction::Spawn
                <==> evs[i] == AcceptEvent::Accepted),
    decreases evs.len(),
{
    if evs.len() > 0 {
        let rest = evs.drop_first();
        assert forall|i: int| 0 <= i < rest.len() implies rest[i] != AcceptEvent::ListenerFailed by {
            assert(rest[i] == evs[i + 1]);
        }
        lemma_acceptor_resilience(rest);
        let acts = accept_run(ListenerState::Listening, evs).1;
        let tail = accept_run(ListenerState::Listening, rest).1;
        assert forall|i: int| 0 < i < evs.len() implies acts[i] == tail[i - 1] && evs[i] == rest[i - 1] by {}
    }
}

/// How far an accepted connection has come.
#[derive(Clone, Copy, Debug, PartialEq, Eq, Structural)]
pub enum Setup {
    /// The WebSocket upgrade is under way.
    Handshaking,
    /// The backend is being dialed.
    Dialing,
    /// The session is open and its pumps run.
    Bridging,
    /// The connection was given up; nothing else is affected.
    Discarded,
}

/// The outcome of a step of bringing a connection up.
#[derive(Clone, Copy, Debug, PartialEq, Eq, Structural)]
pub enum SetupEvent {
    HandshakeDone,
    HandshakeFailed,
    Dialed,
    DialFailed,
}

/// What the connection's unit of work does next.
#[derive(Clone, Copy, Debug, PartialEq, Eq, Structural)]
pub enum SetupAction {
    /// Dial the backend.
    Dial,
    /// Open the session on the dialed backend and start its pumps.
    StartSession,
    /// Drop the raw connection.
    DropConnection,
    /// Close the upgraded WebSocket.
    CloseClient,
    /// Nothing to do.
    Ignore,
}

/// The decision on one setup outcome.
pub open spec fn on_setup_spec(state: Setup, ev: SetupEvent) -> (Setup, SetupAction) {
    match (state, ev) {
        (Setup::Handshaking, SetupEvent::HandshakeDone) => (Setup::Dialing, SetupAction::Dial),
        (Setup::Handshaking, SetupEvent::HandshakeFailed) => (Setup::Discarded, SetupAction::DropConnection),
        (Setup::Dialing, SetupEvent::Dialed) => (Setup::Bridging, SetupAction::StartSession),
        (Setup::Dialing, SetupEvent::DialFailed) => (Setup::Discarded, SetupAction::CloseClient),
        _ => (state, SetupAction::Ignore),
    }
}

/// Decides the next step of bringing a connection up: after the handshake
/// the backend is dialed, after the dial the session starts; a failed
/// handshake drops the connection and a failed dial closes the WebSocket.
/// An outcome that does not belong to the current step changes nothing.
pub fn on_setup(state: &mut Setup, ev: SetupEvent) -> (r: SetupAction)
    ensures
        (*final(state), r) == on_setup_spec(*old(state), ev),
{
    match (*state, ev) {
        (Setup::Handshaking, SetupEvent::HandshakeDone) => {
            *state = Setup::Dialing;
            SetupAction::Dial
        },
        (Setup::Handshaking, SetupEvent::HandshakeFailed) => {
            *state = Setup::Discarded;
            SetupAction::DropConnection
        },
        (Setup::Dialing, SetupEvent::Dialed) => {
            *state = Setup::Bridging;
            SetupAction::StartSession
        },
        (Setup::Dialing, SetupEvent::DialFailed) => {
            *state = Setup::Discarded;
            SetupAction::CloseClient
        },
        _ => SetupAction::Ignore,
    }
}

} // verus!
