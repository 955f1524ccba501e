use moh_relay::config::Config;
use moh_relay::proxy::{client_ip_text, ipv4_text, preamble, proxy_header, proxy_line, ClientIp};
use moh_relay::session::Session;

fn config(proxy_protocol: bool) -> Config {
    Config {
        mc_server_addr: "127.0.0.1:25565".to_string(),
        ws_listen_addr: "0.0.0.0:8080".to_string(),
        proxy_protocol,
    }
}

#[test]
fn ipv4_header_matches_line() {
    let ip = ClientIp::V4([192, 0, 2, 1]);
    let header = proxy_header(&ip);
    assert_eq!(header, b"PROXY TCP4 192.0.2.1 127.0.0.1 25565 25565\r\n".to_vec());
}

#[test]
fn ipv6_header_uses_tcp6_and_loopback() {
    let ip = ClientIp::V6([0x2001, 0x0db8, 0, 0, 0, 0, 0, 1]);
    let header = proxy_header(&ip);
    assert_eq!(header, b"PROXY TCP6 2001:db8::1 ::1 25565 25565\r\n".to_vec());
}

#[test]
fn preamble_precedes_payload_when_enabled() {
    let ip = ClientIp::V4([192, 0, 2, 1]);
    let (session, first) = Session::open(&config(true), &ip);
    assert!(!session.is_closed());
    assert_eq!(first, b"PROXY TCP4 192.0.2.1 127.0.0.1 25565 25565\r\n".to_vec());
}

#[test]
fn no_preamble_when_disabled() {
    let ip = ClientIp::V4([192, 0, 2, 1]);
    let (_session, first) = Session::open(&config(false), &ip);
    assert!(first.is_empty());
    assert!(preamble(false, &ClientIp::V6([0x2001, 0x0db8, 0, 0, 0, 0, 0, 1])).is_empty());
}

#[test]
fn ipv4_text_edges() {
    assert_eq!(ipv4_text(&[0, 0, 0, 0]), b"0.0.0.0".to_vec());
    assert_eq!(ipv4_text(&[255, 255, 255, 255]), b"255.255.255.255".to_vec());
    assert_eq!(ipv4_text(&[10, 20, 100, 9]), b"10.20.100.9".to_vec());
}

#[test]
fn ipv6_text_is_compressed() {
    assert_eq!(client_ip_text(&ClientIp::V6([0; 8])), b"::".to_vec());
    assert_eq!(client_ip_text(&ClientIp::V6([0, 0, 0, 0, 0, 0, 0, 1])), b"::1".to_vec());
    assert_eq!(
        client_ip_text(&ClientIp::V6([0xfe80, 0, 0, 0, 0x1, 0x2, 0x3, 0xabcd])),
        b"fe80::1:2:3:abcd".to_vec()
    );
}

#[test]
fn proxy_line_from_text() {
    let line = proxy_line(false, &b"fe80::1".to_vec());
    assert_eq!(line, b"PROXY TCP6 fe80::1 ::1 25565 25565\r\n".to_vec());
}
