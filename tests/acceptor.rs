use moh_relay::acceptor::{on_accept, on_setup, AcceptAction, AcceptEvent, ListenerState, Setup, SetupAction, SetupEvent};

#[test]
fn failed_attempts_do_not_stop_listener() {
    let mut l = ListenerState::Listening;
    assert_eq!(on_accept(&mut l, AcceptEvent::AcceptFailed), AcceptAction::Skip);
    assert_eq!(on_accept(&mut l, AcceptEvent::Accepted), AcceptAction::Spawn);
    assert_eq!(on_accept(&mut l, AcceptEvent::Accepted), AcceptAction::Spawn);
    assert_eq!(l, ListenerState::Listening);
}

#[test]
fn broken_listener_is_fatal() {
    let mut l = ListenerState::Listening;
    assert_eq!(on_accept(&mut l, AcceptEvent::ListenerFailed), AcceptAction::Fatal);
    assert_eq!(l, ListenerState::Stopped);
    assert_eq!(on_accept(&mut l, AcceptEvent::Accepted), AcceptAction::Fatal);
}

#[test]
fn failed_handshake_then_next_connection_bridges() {
    let mut listener = ListenerState::Listening;
    assert_eq!(on_accept(&mut listener, AcceptEvent::Accepted), AcceptAction::Spawn);
    let mut first = Setup::Handshaking;
    assert_eq!(on_setup(&mut first, SetupEvent::HandshakeFailed), SetupAction::DropConnection);
    assert_eq!(first, Setup::Discarded);

    assert_eq!(on_accept(&mut listener, AcceptEvent::Accepted), AcceptAction::Spawn);
    let mut second = Setup::Handshaking;
    assert_eq!(on_setup(&mut second, SetupEvent::HandshakeDone), SetupAction::Dial);
    assert_eq!(on_setup(&mut second, SetupEvent::Dialed), SetupAction::StartSession);
    assert_eq!(second, Setup::Bridging);
}

#[test]
fn failed_dial_closes_client_only() {
    let mut listener = ListenerState::Listening;
    assert_eq!(on_accept(&mut listener, AcceptEvent::Accepted), AcceptAction::Spawn);
    let mut s = Setup::Handshaking;
    assert_eq!(on_setup(&mut s, SetupEvent::HandshakeDone), SetupAction::Dial);
    assert_eq!(on_setup(&mut s, SetupEvent::DialFailed), SetupAction::CloseClient);
    assert_eq!(s, Setup::Discarded);
    assert_eq!(on_setup(&mut s, SetupEvent::Dialed), SetupAction::Ignore);
    assert_eq!(on_accept(&mut listener, AcceptEvent::Accepted), AcceptAction::Spawn);
    assert_eq!(listener, ListenerState::Listening);
}
