//! A SOCKS5 proxy core: the wire codec for the handshake messages, the
//! authentication policy, and the per-connection state machine, all verified.
//! The pieces that touch the network (sockets, DNS, the byte relay) live in
//! the surrounding application and feed this library plain bytes.

use vstd::prelude::*;

pub mod codec;
pub mod context;
pub mod error;
pub mod messages;
pub mod states;
pub mod utf8;
pub mod wire;

verus! {

/// The SOCKS protocol version this server speaks.
pub const SOCKS_VERSION: u8 = 5;

/// The sub-negotiation version of username/password authentication.
pub const AUTH_VERSION: u8 = 1;

} // verus!
