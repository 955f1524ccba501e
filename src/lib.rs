//! A relay that bridges WebSocket clients to a backend TCP service.
//!
//! The library holds the relay's decisions: the PROXY preamble sent ahead of
//! the first payload byte, the two directional pumps of a session, and the
//! acceptor's reaction to each connection attempt. Each is a plain function
//! from state and event to next state and action, so that the runtime around
//! it performs the I/O and the library decides what happens next.

use vstd::prelude::*;

pub mod proxy;
pub mod config;
pub mod session;
pub mod acceptor;
