//! One bridged connection: the decisions of its two directional pumps.
//!
//! The client pump reads WebSocket messages and writes binary payloads to
//! the backend; the backend pump reads bounded chunks from the backend and
//! sends each as one binary message. The first pump to stop ends the whole
//! session, and from then on every event is absorbed.

use vstd::prelude::*;
use crate::config::Config;
use crate::proxy::{header_spec, preamble, preamble_spec, ClientIp};

verus! {

/// The size of the buffer that one read from the backend fills at most.
pub const CHUNK_SIZE: usize = 1024;

/// The life of a session: it forwards until either side stops, then it is
/// closed for good.
#[derive(Clone, Copy, Debug, PartialEq, Eq, Structural)]
pub enum Phase {
    Forwarding,
    Closed,
}

/// What the client pump observes on the WebSocket side.
#[derive(Clone, Debug)]
pub enum ClientEvent {
    /// A binary message and its payload.
    Binary(Vec<u8>),
    /// A close message from the client.
    Close,
    /// A text, ping, pong or other message that is not relayed.
    Unsupported,
    /// The WebSocket stream ended without a close message.
    Ended,
    /// Reading the next message failed.
    ReadFailed,
    /// Writing a payload to the backend failed.
    BackendWriteFailed,
}

/// What the backend pump observes on the TCP side.
#[derive(Clone, Debug)]
pub enum BackendEvent {
    /// One read from the backend; an empty chunk is the end of its stream.
    Read(Vec<u8>),
    /// Reading from the backend failed.
    ReadFailed,
    /// Sending a message to the client failed.
    ClientSendFailed,
}

/// What the runtime is to do after an event.
#[derive(Clone, Debug)]
pub enum Action {
    /// Write these bytes, in full, to the backend.
    ToBackend(Vec<u8>),
    /// Send these bytes to the client as one binary message.
    ToClient(Vec<u8>),
    /// Nothing to do.
    Ignore,
    /// End the session: shut down the backend stream and close the WebSocket.
    Teardown,
}

/// The client pump's decision on one event.
pub open spec fn on_client_spec(phase: Phase, ev: ClientEvent) -> (Phase, Action) {
    match phase {
        Phase::Closed => (Phase::Closed, Action::Ignore),
        Phase::Forwarding => match ev {
            ClientEvent::Binary(b) => (Phase::Forwarding, Action::ToBackend(b)),
            ClientEvent::Unsupported => (Phase::Forwarding, Action::Ignore),
            _ => (Phase::Closed, Action::Teardown),
        },
    }
}

/// The backend pump's decision on one event.
pub open spec fn on_backend_spec(phase: Phase, ev: BackendEvent) -> (Phase, Action) {
    match phase {
        Phase::Closed => (Phase::Closed, Action::Ignore),
        Phase::Forwarding => match ev {
            BackendEvent::Read(b) => if b@.len() > 0 {
                (Phase::Forwarding, Action::ToClient(b))
            } else {
                (Phase::Closed, Action::Teardown)
            },
            _ => (Phase::Closed, Action::Teardown),
        },
    }
}

/// The state of one bridged connection pair.
#[derive(Clone, Copy, Debug)]
pub struct Session {
    pub phase: Phase,
}

impl Session {
    /// Opens a session on a freshly dialed backend and returns the bytes to
    /// write to the backend before any payload.
    pub fn open(config: &Config, ip: &ClientIp) -> (r: (Session, Vec<u8>))
        ensures
            r.0.phase == Phase::Forwarding,
            r.1@ == preamble_spec(config.proxy_protocol, *ip),
    {
        (Session { phase: Phase::Forwarding }, preamble(config.proxy_protocol, ip))
    }

    /// Whether the session has ended.
    pub fn is_closed(&self) -> (r: bool)
        ensures
            r == (self.phase == Phase::Closed),
    {
        self.phase == Phase::Closed
    }

    /// Decides what to do with an event of the client pump: a binary payload
    /// goes to the backend, an unsupported message is skipped, anything else
    /// ends the session.
    pub fn on_client(&mut self, ev: ClientEvent) -> (r: Action)
        ensures
            (final(self).phase, r) == on_client_spec(old(self).phase, ev),
    {
        match self.phase {
            Phase::Closed => Action::Ignore,
            Phase::Forwarding => match ev {
                ClientEvent::Binary(b) => Action::ToBackend(b),
                ClientEvent::Unsupported => Action::Ignore,
                _ => {
                    self.phase = Phase::Closed;
                    Action::Teardown
                },
            },
        }
    }

    /// Decides what to do with an event of the backend pump: a non-empty
    /// chunk goes to the client as one binary message, an empty read or a
    /// failure ends the session.
    pub fn on_backend(&mut self, ev: BackendEvent) -> (r: Action)
        ensures
            (final(self).phase, r) == on_backend_spec(old(self).phase, ev),
    {
        match self.phase {
            Phase::Closed => Action::Ignore,
            Phase::Forwarding => match ev {
                BackendEvent::Read(b) => {
                    if b.len() > 0 {
                        Action::ToClient(b)
                    } else {
                        self.phase = Phase::Closed;
                        Action::Teardown
                    }
                },
                _ => {
                    self.phase = Phase::Closed;
                    Action::Teardown
                },
            },
        }
    }
}

/// The bytes that an action writes to the backend.
pub open spec fn backend_bytes(a: Action) -> Seq<u8> {
    match a {
        Action::ToBackend(b) => b@,
        _ => Seq::empty(),
    }
}

/// The messages that an action sends to the client.
pub open spec fn client_messages(a: Action) -> Seq<Seq<u8>> {
    match a {
        Action::ToClient(b) => seq![b@],
        _ => Seq::empty(),
    }
}

/// The client pump run over a sequence of events: the final phase and every
/// byte written to the backend, in order.
pub open spec fn client_run(phase: Phase, evs: Seq<ClientEvent>) -> (Phase, Seq<u8>)
    decreases evs.len(),
{
    if evs.len() == 0 {
        (phase, Seq::empty())
    } else {
        let (next, a) = on_client_spec(phase, evs[0]);
        let (last, rest) = client_run(next, evs.drop_first());
        (last, backend_bytes(a) + rest)
    }
}

/// The backend pump run over a sequence of events: the final phase and every
/// message sent to the client, in order.
pub open spec fn backend_run(phase: Phase, evs: Seq<BackendEvent>) -> (Phase, Seq<Seq<u8>>)
    decreases evs.len(),
{
    if evs.len() == 0 {
        (phase, Seq::empty())
    } else {
        let (next, a) = on_backend_spec(phase, evs[0]);
        let (last, rest) = backend_run(next, evs.drop_first());
        (last, client_messages(a) + rest)
    }
}

/// The payload of an event: the bytes of a binary message, nothing otherwise.
pub open spec fn payload(ev: ClientEvent) -> Seq<u8> {
    match ev {
        ClientEvent::Binary(b) => b@,
        _ => Seq::empty(),
    }
}

/// The concatenated payloads of a sequence of client events.
pub open spec fn payloads(evs: Seq<ClientEvent>) -> Seq<u8>
    decreases evs.len(),
{
    if evs.len() == 0 {
        Seq::empty()
    } else {
        payload(evs[0]) + payloads(evs.drop_first())
    }
}

/// The bytes of one read from the backend.
pub open spec fn chunk(ev: BackendEvent) -> Seq<u8> {
    match ev {
        BackendEvent::Read(b) => b@,
        _ => Seq::empty(),
    }
}

/// The concatenated bytes of a sequence of reads from the backend.
pub open spec fn read_bytes(evs: Seq<BackendEvent>) -> Seq<u8>
    decreases evs.len(),
{
    if evs.len() == 0 {
        Seq::empty()
    } else {
        chunk(evs[0]) + read_bytes(evs.drop_first())
    }
}

/// Everything the backend receives on a session: the preamble, then the
/// bytes that the client pump writes.
pub open spec fn backend_stream(proxy_protocol: bool, ip: ClientIp, evs: Seq<ClientEvent>) -> Seq<u8> {
    preamble_spec(proxy_protocol, ip) + client_run(Phase::Forwarding, evs).1
}

/// Binary messages from the client reach the backend as the exact
/// concatenation of their payloads, in order, and the session stays open.
pub proof fn lemma_byte_integrity(evs: Seq<ClientEvent>)
    requires
        forall|i: int| 0 <= i < evs.len() ==> evs[i] is Binary,
    ensures
        client_run(Phase::Forwarding, evs) == (Phase::Forwarding, payloads(evs)),
    decreases evs.len(),
{
    if evs.len() > 0 {
        let rest = evs.drop_first();
        assert forall|i: int| 0 <= i < rest.len() implies rest[i] is Binary by {
            assert(rest[i] == evs[i + 1]);
        }
        lemma_byte_integrity(rest);
    }
}

/// Every non-empty read from the backend reaches the client as one binary
/// message holding exactly the bytes read, so the concatenated messages
/// equal the bytes the backend wrote, in order.
pub proof fn lemma_reverse_byte_integrity(evs: Seq<BackendEvent>)
    requires
        forall|i: int| 0 <= i < evs.len() ==> (evs[i] is Read && chunk(evs[i]).len() > 0),
    ensures
        backend_run(Phase::Forwarding, evs).0 == Phase::Forwarding,
        backend_run(Phase::Forwarding, evs).1.len() == evs.len(),
        forall|i: int| 0 <= i < evs.len() ==> backend_run(Phase::Forwarding, evs).1[i] == chunk(evs[i]),
        backend_run(Phase::Forwarding, evs).1.flatten() == read_bytes(evs),
    decreases evs.len(),
{
    if evs.len() > 0 {
        let rest = evs.drop_first();
        assert forall|i: int| 0 <= i < rest.len() implies (rest[i] is Read && chunk(rest[i]).len() > 0) by {
            assert(rest[i] == evs[i + 1]);
        }
        lemma_reverse_byte_integrity(rest);
        let msgs = backend_run(Phase::Forwarding, evs).1;
        let tail = backend_run(Phase::Forwarding, rest).1;
        assert(msgs == seq![chunk(evs[0])] + tail);
        assert forall|i: int| 0 <= i < evs.len() implies msgs[i] == chunk(evs[i]) by {
            if i > 0 {
                assert(msgs[i] == tail[i - 1]);
                assert(rest[i - 1] == evs[i]);
            }
        }
        assert(msgs.drop_first() =~= tail);
    }
}

/// A closed session stays closed: whatever either side does afterwards, nothing
/// more is forwarded in either direction.
pub proof fn lemma_closed_is_terminal(cevs: Seq<ClientEvent>, bevs: Seq<BackendEvent>)
    ensures
        client_run(Phase::Closed, cevs) == (Phase::Closed, Seq::<u8>::empty()),
        backend_run(Phase::Closed, bevs) == (Phase::Closed, Seq::<Seq<u8>>::empty()),
    decreases cevs.len() + bevs.len(),
{
    if cevs.len() > 0 {
        lemma_closed_is_terminal(cevs.drop_first(), bevs);
    }
    if bevs.len() > 0 {
        lemma_closed_is_terminal(cevs, bevs.drop_first());
    }
}

/// A close message from the client ends the session: nothing that comes after
/// it reaches the backend.
pub proof fn lemma_client_close_ends_session(
    phase: Phase,
    before: Seq<ClientEvent>,
    after: Seq<ClientEvent>,
)
    ensures
        client_run(phase, before + seq![ClientEvent::Close] + after)
            == (Phase::Closed, client_run(phase, before).1),
    decreases before.len(),
{
    let evs = before + seq![ClientEvent::Close] + after;
    if before.len() == 0 {
        assert(evs.drop_first() =~= after);
        lemma_closed_is_terminal(after, Seq::empty());
    } else {
        assert(evs[0] == before[0]);
        assert(evs.drop_first() =~= before.drop_first() + seq![ClientEvent::Close] + after);
        let next = on_client_spec(phase, before[0]).0;
        lemma_client_close_ends_session(next, before.drop_first(), after);
    }
}

/// An empty read from the backend ends the session: nothing read after it
/// reaches the client.
pub proof fn lemma_backend_eof_ends_session(
    phase: Phase,
    before: Seq<BackendEvent>,
    eof: BackendEvent,
    after: Seq<BackendEvent>,
)
    requires
        eof is Read,
        chunk(eof).len() == 0,
    ensures
        backend_run(phase, before + seq![eof] + after)
            == (Phase::Closed, backend_run(phase, before).1),
    decreases before.len(),
{
    let evs = before + seq![eof] + after;
    if before.len() == 0 {
        assert(evs.drop_first() =~= after);
        lemma_closed_is_terminal(Seq::empty(), after);
    } else {
        assert(evs[0] == before[0]);
        assert(evs.drop_first() =~= before.drop_first() + seq![eof] + after);
        let next = on_backend_spec(phase, before[0]).0;
        lemma_backend_eof_ends_session(next, before.drop_first(), eof, after);
    }
}

/// A message that is neither binary nor close neither ends the session nor
/// adds anything to the backend stream.
pub proof fn lemma_unsupported_ignored(
    phase: Phase,
    before: Seq<ClientEvent>,
    after: Seq<ClientEvent>,
)
    ensures
        on_client_spec(phase, ClientEvent::Unsupported) == (phase, Action::Ignore),
        client_run(phase, before + seq![ClientEvent::Unsupported] + after)
            == client_run(phase, before + after),
    decreases before.len(),
{
    let evs = before + seq![ClientEvent::Unsupported] + after;
    if before.len() == 0 {
        assert(evs.drop_first() =~= after);
        assert(before + after =~= after);
    } else {
        assert(evs[0] == before[0]);
        assert((before + after)[0] == before[0]);
        assert(evs.drop_first() =~= before.drop_first() + seq![ClientEvent::Unsupported] + after);
        assert((before + after).drop_first() =~= before.drop_first() + after);
        let next = on_client_spec(phase, before[0]).0;
        lemma_unsupported_ignored(next, before.drop_first(), after);
    }
}

/// With the PROXY protocol enabled, the backend stream starts with the PROXY
/// line for the client's address, before any payload byte.
pub proof fn lemma_preamble_comes_first(ip: ClientIp, evs: Seq<ClientEvent>)
    ensures
        backend_stream(true, ip, evs).subrange(0, header_spec(ip).len() as int) == header_spec(ip),
        backend_stream(true, ip, evs).subrange(header_spec(ip).len() as int, backend_stream(true, ip, evs).len() as int)
            == client_run(Phase::Forwarding, evs).1,
{
    let s = backend_stream(true, ip, evs);
    assert(s.subrange(0, header_spec(ip).len() as int) =~= header_spec(ip));
    assert(s.subrange(header_spec(ip).len() as int, s.len() as int) =~= client_run(Phase::Forwarding, evs).1);
}

/// With the PROXY protocol disabled, the backend stream holds the relayed
/// payload bytes alone, with no PROXY line.
pub proof fn lemma_no_preamble_when_disabled(ip: ClientIp, evs: Seq<ClientEvent>)
    ensures
        backend_stream(false, ip, evs) == client_run(Phase::Forwarding, evs).1,
{
    assert(backend_stream(false, ip, evs) =~= client_run(Phase::Forwarding, evs).1);
}

/// The events that one of two sessions observes in an interleaving of both:
/// `true` marks the first session's events, `false` the second's.
pub open spec fn events_of(evs: Seq<(bool, ClientEvent)>, first: bool) -> Seq<ClientEvent>
    decreases evs.len(),
{
    if evs.len() == 0 {
        Seq::empty()
    } else if evs[0].0 == first {
        seq![evs[0].1] + events_of(evs.drop_first(), first)
    } else {
        events_of(evs.drop_first(), first)
    }
}

/// Two sessions run side by side, each event handed to the session it
/// belongs to: the final phase of each and the bytes each writes to its
/// backend.
pub open spec fn pair_run(a: Phase, b: Phase, evs: Seq<(bool, ClientEvent)>) -> (
    Phase,
    Seq<u8>,
    Phase,
    Seq<u8>,
)
    decreases evs.len(),
{
    if evs.len() == 0 {
        (a, Seq::empty(), b, Seq::empty())
    } else if evs[0].0 {
        let (next, act) = on_client_spec(a, evs[0].1);
        let (pa, ba, pb, bb) = pair_run(next, b, evs.drop_first());
        (pa, backend_bytes(act) + ba, pb, bb)
    } else {
        let (next, act) = on_client_spec(b, evs[0].1);
        let (pa, ba, pb, bb) = pair_run(a, next, evs.drop_first());
        (pa, ba, pb, backend_bytes(act) + bb)
    }
}

/// Concurrent sessions are isolated: however the events of two sessions
/// interleave, each session ends in the phase, and writes to its backend the
/// bytes, that its own events alone give. Closing one leaves the other as
/// it was.
pub proof fn lemma_isolation(a: Phase, b: Phase, evs: Seq<(bool, ClientEvent)>)
    ensures
        pair_run(a, b, evs) == ({
            let (pa, ba) = client_run(a, events_of(evs, true));
            let (pb, bb) = client_run(b, events_of(evs, false));
            (pa, ba, pb, bb)
        }),
    decreases evs.len(),
{
    if evs.len() > 0 {
        let rest = evs.drop_first();
        let mine = events_of(evs, evs[0].0);
        assert(mine[0] == evs[0].1);
        assert(mine.drop_first() =~= events_of(rest, evs[0].0));
        if evs[0].0 {
            lemma_isolation(on_client_spec(a, evs[0].1).0, b, rest);
        } else {
            lemma_isolation(a, on_client_spec(b, evs[0].1).0, rest);
        }
    }
}

} // verus!
