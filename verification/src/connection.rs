//! The connection wrapper: a closed tagged union over {H1, H2} with uniform
//! readiness access and readable/writable dispatch, and the four
//! constructors with their initial interests and stream bindings.

use vstd::prelude::*;
use crate::h1::ConnectionH1;
use crate::h2::{ConnectionH2, H2State};
use crate::ready::{Readiness, Ready};
use crate::settings::H2Settings;
use crate::socket::SocketHandler;
use crate::stream::Streams;
use crate::Position;

verus! {

/// A frontend or backend connection.
pub enum Connection<Front: SocketHandler> {
    H1(ConnectionH1<Front>),
    H2(ConnectionH2<Front>),
}

impl<Front: SocketHandler> Connection<Front> {
    /// Well-formed with respect to the session's stream table: the bound or
    /// mapped streams exist.
    pub open spec fn wf(self, table: Streams) -> bool {
        match self {
            Connection::H1(c) => c.stream < table.streams@.len(),
            Connection::H2(c) => c.wf(table),
        }
    }

    /// The connection's readiness as a spec value.
    pub open spec fn spec_readiness(self) -> Readiness {
        match self {
            Connection::H1(c) => c.readiness,
            Connection::H2(c) => c.readiness,
        }
    }

    /// The same connection with another readiness.
    pub open spec fn spec_with_readiness(self, r: Readiness) -> Connection<Front> {
        match self {
            Connection::H1(c) => Connection::H1(ConnectionH1 { readiness: r, ..c }),
            Connection::H2(c) => Connection::H2(ConnectionH2 { readiness: r, ..c }),
        }
    }

    /// The position of the connection.
    pub open spec fn spec_position(self) -> Position {
        match self {
            Connection::H1(c) => c.position,
            Connection::H2(c) => c.position,
        }
    }

    /// An H2 connection that hit a protocol error; the session must close.
    pub open spec fn spec_is_error(self) -> bool {
        match self {
            Connection::H1(_) => false,
            Connection::H2(c) => c.state == H2State::Error,
        }
    }

    /// An H1 server bound to stream 0: readable, hup and error interest.
    pub fn new_h1_server(front_stream: Front) -> (r: Connection<Front>)
        ensures
            r == Connection::H1(
                ConnectionH1 {
                    socket: front_stream,
                    position: Position::Server,
                    readiness: Readiness {
                        interest: Ready { readable: true, writable: false, error: true, hup: true },
                        event: Ready { readable: false, writable: false, error: false, hup: false },
                    },
                    stream: 0usize,
                },
            ),
    {
        Connection::H1(
            ConnectionH1 {
                socket: front_stream,
                position: Position::Server,
                readiness: Readiness::new_server(),
                stream: 0,
            },
        )
    }

    /// An H1 client bound to stream 0: writable, hup and error interest.
    pub fn new_h1_client(front_stream: Front) -> (r: Connection<Front>)
        ensures
            r == Connection::H1(
                ConnectionH1 {
                    socket: front_stream,
                    position: Position::Client,
                    readiness: Readiness {
                        interest: Ready { readable: false, writable: true, error: true, hup: true },
                        event: Ready { readable: false, writable: false, error: false, hup: false },
                    },
                    stream: 0usize,
                },
            ),
    {
        Connection::H1(
            ConnectionH1 {
                socket: front_stream,
                position: Position::Client,
                readiness: Readiness::new_client(),
                stream: 0,
            },
        )
    }

    /// An H2 server: map `{0 -> 0}`, state *ClientPreface*, expecting the
    /// 24-byte preface plus the first 9-octet frame header into stream 0.
    pub fn new_h2_server(front_stream: Front) -> (r: Connection<Front>)
        ensures
            r matches Connection::H2(c) ==> {
                &&& c.position == Position::Server
                &&& c.readiness == (Readiness {
                    interest: Ready { readable: true, writable: false, error: true, hup: true },
                    event: Ready { readable: false, writable: false, error: false, hup: false },
                })
                &&& c.streams@ == seq![(0u32, 0usize)]
                &&& c.state == H2State::ClientPreface
                &&& c.expect == Some((0usize, 33usize))
                &&& c.settings == H2Settings::spec_default()
                &&& c.expect_continuation is None
                &&& !c.goaway
            },
            r is H2,
    {
        let mut streams: Vec<(u32, usize)> = Vec::new();
        streams.push((0, 0));
        proof {
            assert(streams@ =~= seq![(0u32, 0usize)]);
        }
        Connection::H2(
            ConnectionH2 {
                socket: front_stream,
                position: Position::Server,
                readiness: Readiness::new_server(),
                streams,
                state: H2State::ClientPreface,
                expect: Some((0, 24 + 9)),
                settings: H2Settings::default(),
                decoder: crate::headers::decoder_new(),
                expect_continuation: None,
                goaway: false,
            },
        )
    }

    /// An H2 client: map `{0 -> 0}`, state *ClientPreface*, nothing
    /// expected; it sends first.
    pub fn new_h2_client(front_stream: Front) -> (r: Connection<Front>)
        ensures
            r matches Connection::H2(c) ==> {
                &&& c.position == Position::Client
                &&& c.readiness == (Readiness {
                    interest: Ready { readable: false, writable: true, error: true, hup: true },
                    event: Ready { readable: false, writable: false, error: false, hup: false },
                })
                &&& c.streams@ == seq![(0u32, 0usize)]
                &&& c.state == H2State::ClientPreface
                &&& c.expect is None
                &&& c.settings == H2Settings::spec_default()
                &&& c.expect_continuation is None
                &&& !c.goaway
            },
            r is H2,
    {
        let mut streams: Vec<(u32, usize)> = Vec::new();
        streams.push((0, 0));
        proof {
            assert(streams@ =~= seq![(0u32, 0usize)]);
        }
        Connection::H2(
            ConnectionH2 {
                socket: front_stream,
                position: Position::Client,
                readiness: Readiness::new_client(),
                streams,
                state: H2State::ClientPreface,
                expect: None,
                settings: H2Settings::default(),
                decoder: crate::headers::decoder_new(),
                expect_continuation: None,
                goaway: false,
            },
        )
    }

    /// The readiness of the connection.
    pub fn readiness(&self) -> (r: &Readiness)
        ensures
            *r == self.spec_readiness(),
    {
        match self {
            Connection::H1(c) => &c.readiness,
            Connection::H2(c) => &c.readiness,
        }
    }

    /// Mutable access to the readiness of the connection; nothing else of
    /// the connection changes through it.
    pub fn readiness_mut(&mut self) -> (r: &mut Readiness)
        ensures
            *r == old(self).spec_readiness(),
            *final(self) == old(self).spec_with_readiness(*final(r)),
    {
        match self {
            Connection::H1(c) => &mut c.readiness,
            Connection::H2(c) => &mut c.readiness,
        }
    }

    /// Whether the connection is in a protocol-error state.
    pub fn is_error(&self) -> (r: bool)
        ensures
            r == self.spec_is_error(),
    {
        match self {
            Connection::H1(_) => false,
            Connection::H2(c) => {
                match c.state {
                    H2State::Error => true,
                    _ => false,
                }
            }
        }
    }

    /// Decide well-formedness against a table at run time, for callers that
    /// assembled the connection outside verified code.
    pub fn check_wf(&self, streams: &Streams) -> (r: bool)
        ensures
            r == self.wf(*streams),
    {
        match self {
            Connection::H1(c) => c.stream < streams.len(),
            Connection::H2(c) => c.check_wf(streams),
        }
    }

    /// Dispatch a readable pass to the protocol engine.
    pub fn readable(&mut self, streams: &mut Streams)
        requires
            old(self).wf(*old(streams)),
            old(streams).wf(),
        ensures
            final(self).wf(*final(streams)),
            final(streams).wf(),
            final(streams).streams@.len() >= old(streams).streams@.len(),
    {
        match self {
            Connection::H1(c) => c.readable(streams),
            Connection::H2(c) => c.readable(streams),
        }
    }

    /// Dispatch a writable pass to the protocol engine.
    pub fn writable(&mut self, streams: &mut Streams)
        requires
            old(self).wf(*old(streams)),
            old(streams).wf(),
        ensures
            final(self).wf(*final(streams)),
            final(streams).wf(),
            final(streams).streams@.len() >= old(streams).streams@.len(),
    {
        match self {
            Connection::H1(c) => c.writable(streams),
            Connection::H2(c) => c.writable(streams),
        }
    }
}

/// Well-formedness only grows with the table: a connection well-formed for a
/// table stays well-formed when streams are appended.
pub proof fn lemma_wf_monotone<Front: SocketHandler>(c: Connection<Front>, t1: Streams, t2: Streams)
    requires
        c.wf(t1),
        t1.streams@.len() <= t2.streams@.len(),
    ensures
        c.wf(t2),
{
}

} // verus!
