use moh_relay::config::Config;
use moh_relay::proxy::ClientIp;
use moh_relay::session::{Action, BackendEvent, ClientEvent, Phase, Session, CHUNK_SIZE};

fn open() -> Session {
    let config = Config {
        mc_server_addr: "127.0.0.1:25565".to_string(),
        ws_listen_addr: "0.0.0.0:8080".to_string(),
        proxy_protocol: false,
    };
    Session::open(&config, &ClientIp::V4([127, 0, 0, 1])).0
}

fn to_backend(a: Action) -> Vec<u8> {
    match a {
        Action::ToBackend(b) => b,
        other => panic!("expected bytes for the backend, got {:?}", other),
    }
}

#[test]
fn binary_messages_reach_backend_in_order() {
    let mut s = open();
    let mut stream = Vec::new();
    for m in [vec![1u8, 2, 3], vec![], vec![4u8], vec![5u8, 6]] {
        stream.extend(to_backend(s.on_client(ClientEvent::Binary(m))));
    }
    assert_eq!(stream, vec![1, 2, 3, 4, 5, 6]);
    assert_eq!(s.phase, Phase::Forwarding);
}

#[test]
fn backend_chunks_reach_client_as_binary_messages() {
    let mut s = open();
    let data: Vec<u8> = (0..2500u32).map(|i| (i % 251) as u8).collect();
    let mut received = Vec::new();
    for chunk in data.chunks(CHUNK_SIZE) {
        match s.on_backend(BackendEvent::Read(chunk.to_vec())) {
            Action::ToClient(b) => {
                assert_eq!(b, chunk.to_vec());
                received.extend(b);
            }
            other => panic!("expected a message, got {:?}", other),
        }
    }
    assert_eq!(received, data);
    assert!(!s.is_closed());
}

#[test]
fn client_close_tears_down() {
    let mut s = open();
    assert!(matches!(s.on_client(ClientEvent::Close), Action::Teardown));
    assert!(s.is_closed());
    assert!(matches!(s.on_client(ClientEvent::Binary(vec![9])), Action::Ignore));
    assert!(matches!(s.on_backend(BackendEvent::Read(vec![9])), Action::Ignore));
    assert!(matches!(s.on_backend(BackendEvent::ReadFailed), Action::Ignore));
}

#[test]
fn backend_eof_tears_down() {
    let mut s = open();
    assert!(matches!(s.on_backend(BackendEvent::Read(vec![])), Action::Teardown));
    assert!(s.is_closed());
    assert!(matches!(s.on_client(ClientEvent::Binary(vec![1])), Action::Ignore));
}

#[test]
fn unsupported_message_is_skipped() {
    let mut s = open();
    assert!(matches!(s.on_client(ClientEvent::Unsupported), Action::Ignore));
    assert!(!s.is_closed());
    assert_eq!(to_backend(s.on_client(ClientEvent::Binary(vec![7, 8]))), vec![7, 8]);
}

#[test]
fn failures_tear_down() {
    for ev in [ClientEvent::Ended, ClientEvent::ReadFailed, ClientEvent::BackendWriteFailed] {
        let mut s = open();
        assert!(matches!(s.on_client(ev), Action::Teardown));
        assert!(s.is_closed());
    }
    for ev in [BackendEvent::ReadFailed, BackendEvent::ClientSendFailed] {
        let mut s = open();
        assert!(matches!(s.on_backend(ev), Action::Teardown));
        assert!(s.is_closed());
    }
}

#[test]
fn sessions_are_isolated() {
    let mut a = open();
    let mut b = open();
    assert_eq!(to_backend(a.on_client(ClientEvent::Binary(vec![1]))), vec![1]);
    assert_eq!(to_backend(b.on_client(ClientEvent::Binary(vec![2]))), vec![2]);
    assert!(matches!(a.on_client(ClientEvent::Close), Action::Teardown));
    assert!(a.is_closed());
    assert!(!b.is_closed());
    assert_eq!(to_backend(b.on_client(ClientEvent::Binary(vec![3]))), vec![3]);
}
