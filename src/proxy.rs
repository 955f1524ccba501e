//! The PROXY protocol preamble announcing the client's address to the backend.

use vstd::prelude::*;

verus! {

/// The ASCII code of the digit zero.
pub const ASCII_ZERO: u8 = 48;

/// The ASCII codes of the separators used in the preamble.
pub const ASCII_SPACE: u8 = 32;

pub const ASCII_DOT: u8 = 46;

/// The address of the client as observed on the accepted connection.
#[derive(Clone, Copy, Debug)]
pub enum ClientIp {
    /// An IPv4 address, as its four octets.
    V4([u8; 4]),
    /// An IPv6 address, as its eight 16-bit segments.
    V6([u16; 8]),
}

impl ClientIp {
    pub open spec fn is_v4_spec(&self) -> bool {
        self is V4
    }

    /// Whether the address is an IPv4 one, which selects `TCP4` in the preamble.
    pub fn is_v4(&self) -> (r: bool)
        ensures
            r == self.is_v4_spec(),
    {
        match self {
            ClientIp::V4(_) => true,
            ClientIp::V6(_) => false,
        }
    }
}

/// Decimal text of a natural number, most significant digit first.
pub open spec fn decimal(n: nat) -> Seq<u8>
    decreases n,
{
    if n < 10 {
        seq![(ASCII_ZERO + n) as u8]
    } else {
        decimal(n / 10).push((ASCII_ZERO + n % 10) as u8)
    }
}

/// Appends the decimal text of `n` to `out`.
fn push_decimal(out: &mut Vec<u8>, n: u8)
    ensures
        final(out)@ == old(out)@ + decimal(n as nat),
{
    proof {
        reveal_with_fuel(decimal, 3);
    }
    if n >= 100 {
        out.push(ASCII_ZERO + n / 100);
    }
    if n >= 10 {
        out.push(ASCII_ZERO + (n / 10) % 10);
    }
    out.push(ASCII_ZERO + n % 10);
    proof {
        if n >= 100 {
            assert(decimal(n as nat / 10) == decimal(n as nat / 100).push((ASCII_ZERO + (n as nat / 10) % 10) as u8));
        }
    }
    assert(out@ =~= old(out)@ + decimal(n as nat));
}

/// Dotted-decimal text of an IPv4 address given by its four octets.
pub open spec fn dotted_quad(o: Seq<u8>) -> Seq<u8>
    recommends
        o.len() == 4,
{
    decimal(o[0] as nat) + seq![ASCII_DOT] + decimal(o[1] as nat) + seq![ASCII_DOT]
        + decimal(o[2] as nat) + seq![ASCII_DOT] + decimal(o[3] as nat)
}

/// Dotted-decimal text of an IPv4 address, as in `192.0.2.1`.
pub fn ipv4_text(octets: &[u8; 4]) -> (r: Vec<u8>)
    ensures
        r@ == dotted_quad(octets@),
{
    let mut out: Vec<u8> = Vec::new();
    push_decimal(&mut out, octets[0]);
    out.push(ASCII_DOT);
    push_decimal(&mut out, octets[1]);
    out.push(ASCII_DOT);
    push_decimal(&mut out, octets[2]);
    out.push(ASCII_DOT);
    push_decimal(&mut out, octets[3]);
    assert(out@ =~= dotted_quad(octets@));
    out
}

/// The text form of an IPv6 address given by its eight segments, as the
/// standard library writes it (RFC 5952: lower-case hexadecimal, the longest
/// run of zero segments written `::`).
pub uninterp spec fn ipv6_text(segments: Seq<u16>) -> Seq<u8>;

/// Relies on `Display` of `core::net::Ipv6Addr`, whose text depends on the
/// eight segments alone.
#[verifier::external_body]
fn format_ipv6(segments: &[u16; 8]) -> (r: Vec<u8>)
    ensures
        r@ == ipv6_text(segments@),
{
    core::net::Ipv6Addr::from(*segments).to_string().into_bytes()
}

/// The text of a client address as it appears in the preamble.
pub open spec fn ip_text(ip: ClientIp) -> Seq<u8> {
    match ip {
        ClientIp::V4(o) => dotted_quad(o@),
        ClientIp::V6(s) => ipv6_text(s@),
    }
}

/// The text of a client address: dotted decimal for IPv4, the standard
/// IPv6 text form otherwise.
pub fn client_ip_text(ip: &ClientIp) -> (r: Vec<u8>)
    ensures
        r@ == ip_text(*ip),
{
    match ip {
        ClientIp::V4(o) => ipv4_text(o),
        ClientIp::V6(s) => format_ipv6(s),
    }
}

/// `PROXY TCP`
pub open spec fn proxy_keyword() -> Seq<u8> {
    seq![80u8, 82, 79, 88, 89, 32, 84, 67, 80]
}

/// The digit after `TCP`: `4` or `6`.
pub open spec fn family_digit(is_v4: bool) -> u8 {
    if is_v4 { 52u8 } else { 54u8 }
}

/// The loopback placeholder written as the local address: `127.0.0.1` or `::1`.
pub open spec fn local_ip(is_v4: bool) -> Seq<u8> {
    if is_v4 {
        seq![49u8, 50, 55, 46, 48, 46, 48, 46, 49]
    } else {
        seq![58u8, 58, 49]
    }
}

/// The fixed ports and the line end: ` 25565 25565\r\n`.
pub open spec fn ports_and_crlf() -> Seq<u8> {
    seq![32u8, 50, 53, 53, 54, 53, 32, 50, 53, 53, 54, 53, 13, 10]
}

/// The preamble line `PROXY TCP<4|6> <client-ip> <local-ip> 25565 25565\r\n`.
pub open spec fn proxy_line_spec(is_v4: bool, client_ip: Seq<u8>) -> Seq<u8> {
    proxy_keyword() + seq![family_digit(is_v4), ASCII_SPACE] + client_ip + seq![ASCII_SPACE]
        + local_ip(is_v4) + ports_and_crlf()
}

/// The preamble for a client address.
pub open spec fn header_spec(ip: ClientIp) -> Seq<u8> {
    proxy_line_spec(ip.is_v4_spec(), ip_text(ip))
}

/// What is written to the backend before any payload byte.
pub open spec fn preamble_spec(proxy_protocol: bool, ip: ClientIp) -> Seq<u8> {
    if proxy_protocol {
        header_spec(ip)
    } else {
        Seq::empty()
    }
}

/// Builds the preamble line from the address family and the client's
/// address text.
pub fn proxy_line(is_v4: bool, client_ip: &Vec<u8>) -> (r: Vec<u8>)
    ensures
        r@ == proxy_line_spec(is_v4, client_ip@),
{
    let mut out: Vec<u8> = vec![80u8, 82, 79, 88, 89, 32, 84, 67, 80];
    out.push(if is_v4 { 52u8 } else { 54u8 });
    out.push(ASCII_SPACE);
    let mut ip = client_ip.clone();
    out.append(&mut ip);
    out.push(ASCII_SPACE);
    let mut local: Vec<u8> = if is_v4 {
        vec![49u8, 50, 55, 46, 48, 46, 48, 46, 49]
    } else {
        vec![58u8, 58, 49]
    };
    out.append(&mut local);
    let mut tail: Vec<u8> = vec![32u8, 50, 53, 53, 54, 53, 32, 50, 53, 53, 54, 53, 13, 10];
    out.append(&mut tail);
    assert(out@ =~= proxy_line_spec(is_v4, client_ip@));
    out
}

/// The PROXY preamble announcing `ip` to the backend.
pub fn proxy_header(ip: &ClientIp) -> (r: Vec<u8>)
    ensures
        r@ == header_spec(*ip),
{
    let text = client_ip_text(ip);
    proxy_line(ip.is_v4(), &text)
}

/// The bytes to write to the backend before any relayed payload: the PROXY
/// line when the protocol is enabled, nothing otherwise.
pub fn preamble(proxy_protocol: bool, ip: &ClientIp) -> (r: Vec<u8>)
    ensures
        r@ == preamble_spec(proxy_protocol, *ip),
        !proxy_protocol ==> r@.len() == 0,
{
    if proxy_protocol {
        proxy_header(ip)
    } else {
        Vec::new()
    }
}

} // verus!
