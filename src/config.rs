//! The relay's configuration, resolved before the relay starts.

use vstd::prelude::*;

verus! {

/// Where the relay listens, where it forwards to, and whether it announces
/// the client's address with a PROXY preamble. Read-only once loaded and
/// shared by every session.
#[derive(Clone, Debug)]
pub struct Config {
    /// The backend address, as `host:port`.
    pub mc_server_addr: String,
    /// The WebSocket listen address, as `host:port`.
    pub ws_listen_addr: String,
    /// Whether each backend stream starts with a PROXY line.
    pub proxy_protocol: bool,
}

} // verus!
