//! Session multiplexer for a reverse proxy: one frontend connection (HTTP/1.1
//! or HTTP/2) and any number of backend connections share a table of streams,
//! each stream owning a request buffer and a response buffer rented from a
//! capacity-limited pool. A bounded readiness loop shuttles bytes between the
//! sockets and the per-protocol engines.

use vstd::prelude::*;

pub mod codec;
pub mod connection;
pub mod h1;
pub mod h2;
pub mod headers;
pub mod id;
pub mod msg;
pub mod mux;
pub mod ready;
pub mod settings;
pub mod socket;
pub mod stream;

verus! {

/// Role of a connection: a server-position connection reads requests and
/// writes responses; a client-position connection reverses this.
#[derive(Debug, Clone, Copy, PartialEq, Eq, Structural)]
pub enum Position {
    Client,
    Server,
}

} // verus!
