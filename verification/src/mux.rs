//! The session orchestrator: one frontend connection, any number of backend
//! connections, the shared stream table, and the bounded readiness loop that
//! drains work from all of them.

use vstd::prelude::*;
use crate::connection::{lemma_wf_monotone, Connection};
use crate::socket::SocketHandler;
use crate::stream::Streams;

verus! {

/// A poll token addressing one connection of the session.
#[derive(Debug, Clone, Copy, PartialEq, Eq, Structural)]
pub struct Token(pub usize);

/// What the session should do after a readiness pass.
#[derive(Debug, Clone, Copy, PartialEq, Eq, Structural)]
pub enum SessionResult {
    Continue,
    Close,
}

/// What the session should do on an external signal.
#[derive(Debug, Clone, Copy, PartialEq, Eq, Structural)]
pub enum StateResult {
    CloseSession,
}

/// One backend connection and the token the poller knows it by.
pub struct Backend<B: SocketHandler> {
    pub token: Token,
    pub connection: Connection<B>,
}

/// Mutably borrow one element of a vector.
fn backend_at<B: SocketHandler>(v: &mut Vec<Backend<B>>, i: usize) -> (r: &mut Backend<B>)
    requires
        i < old(v)@.len(),
    ensures
        *r == old(v)@[i as int],
        final(v)@ == old(v)@.update(i as int, *final(r)),
{
    &mut v[i]
}

/// A connection with no effective readiness and no protocol error: a pass
/// finds no work on it and no reason to close.
pub open spec fn spec_conn_idle<T: SocketHandler>(c: Connection<T>) -> bool {
    let f = c.spec_readiness().spec_filter_interest();
    !f.readable && !f.writable && !f.hup && !f.error && !c.spec_is_error()
}

/// The session multiplexer.
pub struct Mux<F: SocketHandler, B: SocketHandler> {
    pub frontend_token: Token,
    pub frontend: Connection<F>,
    pub backends: Vec<Backend<B>>,
    pub streams: Streams,
    /// The sticky-session cookie name of the listener.
    pub sticky_name: String,
    /// How often the readiness loop failed to quiesce within its budget.
    pub loop_errors: u64,
}

impl<F: SocketHandler, B: SocketHandler> Mux<F, B> {
    /// Quiescent: no connection has work or a close condition; a readiness
    /// pass leaves the session untouched.
    pub open spec fn spec_quiescent(self) -> bool {
        spec_conn_idle(self.frontend) && forall|i: int|
            0 <= i < self.backends@.len() ==> spec_conn_idle(
                (#[trigger] self.backends@[i]).connection,
            )
    }

    /// A reason to close: a peer is gone, a link broke, or a protocol error
    /// was hit, on the frontend or on any backend.
    pub open spec fn spec_close_cond(self) -> bool {
        ||| self.frontend.spec_readiness().spec_filter_interest().hup
        ||| self.frontend.spec_readiness().spec_filter_interest().error
        ||| self.frontend.spec_is_error()
        ||| exists|i: int|
            0 <= i < self.backends@.len() && ((#[trigger] self.backends@[i]).connection.spec_readiness().spec_filter_interest().hup
                || self.backends@[i].connection.spec_readiness().spec_filter_interest().error
                || self.backends@[i].connection.spec_is_error())
    }

    /// Well-formed: the table is sound (stream 0 exists) and every owned
    /// connection points only at existing streams.
    pub open spec fn wf(self) -> bool {
        &&& self.streams.wf()
        &&& self.frontend.wf(self.streams)
        &&& forall|i: int|
            0 <= i < self.backends@.len() ==> (#[trigger] self.backends@[i]).connection.wf(
                self.streams,
            )
    }

    /// Assemble a session from parts built outside verified code, checking
    /// that they fit together. Succeeds exactly when the table is sound and
    /// the frontend fits it; on failure the parts come back unchanged.
    pub fn new(
        frontend_token: Token,
        frontend: Connection<F>,
        streams: Streams,
        sticky_name: String,
    ) -> (r: Result<Mux<F, B>, (Connection<F>, Streams)>)
        ensures
            r matches Ok(m) ==> m.wf() && m.frontend_token == frontend_token && m.loop_errors == 0
                && m.backends@.len() == 0 && m.frontend == frontend && m.streams == streams
                && m.sticky_name == sticky_name,
            r matches Err(p) ==> p.0 == frontend && p.1 == streams,
            r is Ok <==> streams.wf() && frontend.wf(streams),
    {
        let table_ok = streams.len() >= 1 && streams.pool.available <= streams.pool.capacity && (
        !streams.pool.alive || streams.len() <= (streams.pool.capacity - streams.pool.available)
            / 2);
        if !table_ok || !frontend.check_wf(&streams) {
            return Err((frontend, streams));
        }
        Ok(
            Mux {
                frontend_token,
                frontend,
                backends: Vec::new(),
                streams,
                sticky_name,
                loop_errors: 0,
            },
        )
    }

    /// Adopt a backend connection, checking that it fits the stream table;
    /// on failure it comes back unchanged.
    pub fn add_backend(&mut self, token: Token, connection: Connection<B>) -> (r: Result<
        (),
        Connection<B>,
    >)
        requires
            old(self).wf(),
        ensures
            final(self).wf(),
            r is Ok ==> final(self).backends@.len() == old(self).backends@.len() + 1
                && final(self).backends@.last().token == token,
            r is Err ==> *final(self) == *old(self),
    {
        if connection.check_wf(&self.streams) {
            self.backends.push(Backend { token, connection });
            Ok(())
        } else {
            Err(connection)
        }
    }

    /// The frontend socket.
    pub fn front_socket(&self) -> (r: &F)
        ensures
            match self.frontend {
                Connection::H1(c) => *r == c.socket,
                Connection::H2(c) => *r == c.socket,
            },
    {
        match &self.frontend {
            Connection::H1(c) => &c.socket,
            Connection::H2(c) => &c.socket,
        }
    }

    /// One pass over the connections in the fixed order: frontend readable,
    /// backends writable then readable, frontend writable. Returns whether
    /// any work was done and whether the session must close (a backend or
    /// frontend reporting hup, error, or a protocol error). A pass that does
    /// no work leaves the session exactly as it was, so once quiescent the
    /// loop stays quiescent.
    pub fn pass(&mut self) -> (r: (bool, bool))
        requires
            old(self).wf(),
        ensures
            final(self).wf(),
            !r.0 ==> *final(self) == *old(self),
            old(self).spec_quiescent() ==> !r.0 && !r.1,
            !r.0 && !r.1 ==> final(self).spec_quiescent(),
            r.1 ==> final(self).spec_close_cond(),
            final(self).frontend_token == old(self).frontend_token,
            final(self).loop_errors == old(self).loop_errors,
            final(self).backends@.len() == old(self).backends@.len(),
    {
        let mut dirty = false;
        if self.frontend.readiness().filter_interest().is_readable() {
            self.frontend.readable(&mut self.streams);
            dirty = true;
            proof {
                assert forall|i: int|
                    0 <= i < self.backends@.len() implies (
                #[trigger] self.backends@[i]).connection.wf(self.streams) by {
                    lemma_wf_monotone(
                        self.backends@[i].connection,
                        old(self).streams,
                        self.streams,
                    );
                }
            }
        }
        let mut i: usize = 0;
        while i < self.backends.len()
            invariant
                self.wf(),
                !dirty ==> *self == *old(self),
                old(self).spec_quiescent() ==> !dirty,
                !dirty ==> !old(self).frontend.spec_readiness().spec_filter_interest().readable,
                !dirty ==> forall|k: int|
                    0 <= k < i ==> {
                        let f = (#[trigger] self.backends@[k]).connection.spec_readiness().spec_filter_interest();
                        !f.readable && !f.writable
                    },
                self.backends@.len() == old(self).backends@.len(),
                self.frontend_token == old(self).frontend_token,
                self.loop_errors == old(self).loop_errors,
                i <= self.backends@.len(),
            decreases self.backends@.len() - i,
        {
            let ghost pre = *self;
            let mut worked = false;
            let want_write = {
                let b = &self.backends[i];
                b.connection.readiness().filter_interest().is_writable()
            };
            if want_write {
                let b = backend_at(&mut self.backends, i);
                b.connection.writable(&mut self.streams);
                worked = true;
            }
            proof {
                if worked {
                    lemma_wf_monotone(self.frontend, pre.streams, self.streams);
                    assert forall|j: int|
                        0 <= j < self.backends@.len() implies (
                    #[trigger] self.backends@[j]).connection.wf(self.streams) by {
                        if j != i {
                            assert(self.backends@[j] == pre.backends@[j]);
                            lemma_wf_monotone(
                                self.backends@[j].connection,
                                pre.streams,
                                self.streams,
                            );
                        }
                    }
                }
            }
            let ghost mid = *self;
            let mut worked2 = false;
            let want_read = {
                let b = &self.backends[i];
                b.connection.readiness().filter_interest().is_readable()
            };
            if want_read {
                let b = backend_at(&mut self.backends, i);
                b.connection.readable(&mut self.streams);
                worked2 = true;
            }
            proof {
                if worked2 {
                    lemma_wf_monotone(self.frontend, mid.streams, self.streams);
                    assert forall|j: int|
                        0 <= j < self.backends@.len() implies (
                    #[trigger] self.backends@[j]).connection.wf(self.streams) by {
                        if j != i {
                            assert(self.backends@[j] == mid.backends@[j]);
                            lemma_wf_monotone(
                                self.backends@[j].connection,
                                mid.streams,
                                self.streams,
                            );
                        }
                    }
                }
            }
            if worked || worked2 {
                dirty = true;
            }
            i += 1;
        }
        if self.frontend.readiness().filter_interest().is_writable() {
            let ghost pre = *self;
            self.frontend.writable(&mut self.streams);
            dirty = true;
            proof {
                assert forall|j: int|
                    0 <= j < self.backends@.len() implies (
                #[trigger] self.backends@[j]).connection.wf(self.streams) by {
                    lemma_wf_monotone(self.backends@[j].connection, pre.streams, self.streams);
                }
            }
        }
        // close conditions: a peer is gone, a link broke, or a protocol
        // error was hit
        let mut close = self.frontend.is_error();
        let fr = self.frontend.readiness().filter_interest();
        if fr.is_hup() || fr.is_error() {
            close = true;
        }
        let mut j: usize = 0;
        while j < self.backends.len()
            invariant
                self.wf(),
                !dirty ==> *self == *old(self),
                old(self).spec_quiescent() ==> !dirty && !close,
                close ==> self.spec_close_cond(),
                !close ==> !self.frontend.spec_readiness().spec_filter_interest().hup
                    && !self.frontend.spec_readiness().spec_filter_interest().error
                    && !self.frontend.spec_is_error(),
                !close ==> forall|k: int|
                    0 <= k < j ==> {
                        let f = (#[trigger] self.backends@[k]).connection.spec_readiness().spec_filter_interest();
                        !f.hup && !f.error && !self.backends@[k].connection.spec_is_error()
                    },
                self.backends@.len() == old(self).backends@.len(),
                self.frontend_token == old(self).frontend_token,
                self.loop_errors == old(self).loop_errors,
                j <= self.backends@.len(),
            decreases self.backends@.len() - j,
        {
            let b = &self.backends[j];
            let br = b.connection.readiness().filter_interest();
            if br.is_hup() || br.is_error() || b.connection.is_error() {
                close = true;
            }
            j += 1;
        }
        proof {
            if !dirty && !close {
                assert forall|k: int|
                    0 <= k < self.backends@.len() implies spec_conn_idle(
                    (#[trigger] self.backends@[k]).connection) by {
                    assert({
                        let f =
                            self.backends@[k].connection.spec_readiness().spec_filter_interest();
                        !f.readable && !f.writable
                    });
                    assert({
                        let f =
                            self.backends@[k].connection.spec_readiness().spec_filter_interest();
                        !f.hup && !f.error && !self.backends@[k].connection.spec_is_error()
                    });
                }
                assert(spec_conn_idle(self.frontend));
                assert(self.spec_quiescent());
            }
        }
        (dirty, close)
    }

    /// The readiness loop. A frontend hangup closes the session untouched.
    /// Otherwise passes run until one does no work, for at most 100000
    /// iterations; hitting the budget counts one loop error and closes the
    /// session.
    pub fn ready(&mut self) -> (r: SessionResult)
        requires
            old(self).wf(),
        ensures
            final(self).wf(),
            old(self).frontend.spec_readiness().event.hup ==> r == SessionResult::Close
                && *final(self) == *old(self),
            final(self).loop_errors == old(self).loop_errors || final(self).loop_errors
                == old(self).loop_errors + 1,
            final(self).loop_errors != old(self).loop_errors ==> r == SessionResult::Close,
            old(self).spec_quiescent() && !old(self).frontend.spec_readiness().event.hup ==> r
                == SessionResult::Continue && *final(self) == *old(self),
            r == SessionResult::Continue ==> final(self).spec_quiescent(),
            r == SessionResult::Close ==> old(self).frontend.spec_readiness().event.hup || final(self).spec_close_cond() || final(self).loop_errors == old(self).loop_errors + 1 || old(self).loop_errors == 0xffffffffffffffffu64,
    {
        if self.frontend.readiness().event.is_hup() {
            return SessionResult::Close;
        }
        let max_loop_iterations: usize = 100000;
        let mut counter: usize = 0;
        while counter < max_loop_iterations
            invariant
                self.wf(),
                self.loop_errors == old(self).loop_errors,
                counter <= max_loop_iterations,
                max_loop_iterations == 100000,
                !old(self).frontend.spec_readiness().event.hup,
                old(self).spec_quiescent() ==> *self == *old(self) && counter == 0,
            decreases max_loop_iterations - counter,
        {
            let (dirty, close) = self.pass();
            if close {
                return SessionResult::Close;
            }
            if !dirty {
                return SessionResult::Continue;
            }
            counter += 1;
        }
        if self.loop_errors < 0xffffffffffffffffu64 {
            self.loop_errors = self.loop_errors + 1;
        }
        SessionResult::Close
    }

    /// OR the reported events into the readiness of the connection the
    /// token addresses: bits are only added, its interest and everything
    /// else are untouched, and an unknown token changes nothing at all.
    pub fn update_readiness(&mut self, token: Token, events: crate::ready::Ready)
        ensures
            final(self).streams == old(self).streams,
            final(self).frontend_token == old(self).frontend_token,
            final(self).loop_errors == old(self).loop_errors,
            final(self).sticky_name == old(self).sticky_name,
            final(self).backends@.len() == old(self).backends@.len(),
            token == old(self).frontend_token ==> final(self).frontend == old(self).frontend.spec_with_readiness(
                crate::ready::Readiness {
                    interest: old(self).frontend.spec_readiness().interest,
                    event: old(self).frontend.spec_readiness().event.spec_union(events),
                },
            ) && final(self).backends@ == old(self).backends@,
            token != old(self).frontend_token ==> final(self).frontend == old(self).frontend,
            forall|i: int|
                0 <= i < old(self).backends@.len() && ((#[trigger] old(self).backends@[i]).token != token || token == old(self).frontend_token) ==> final(self).backends@[i] == old(self).backends@[i],
            forall|i: int|
                0 <= i < old(self).backends@.len() ==> (#[trigger] final(self).backends@[i])
                    == old(self).backends@[i] || final(self).backends@[i] == (Backend {
                    token: old(self).backends@[i].token,
                    connection: old(self).backends@[i].connection.spec_with_readiness(
                        crate::ready::Readiness {
                            interest: old(self).backends@[i].connection.spec_readiness().interest,
                            event: old(self).backends@[i].connection.spec_readiness().event.spec_union(events),
                        },
                    ),
                }),
            forall|i: int, j: int|
                0 <= i < old(self).backends@.len() && 0 <= j < old(self).backends@.len() && i != j
                    && (#[trigger] final(self).backends@[i]) != old(self).backends@[i] ==> (
                #[trigger] final(self).backends@[j]) == old(self).backends@[j],
            token != old(self).frontend_token && (forall|i: int|
                0 <= i < old(self).backends@.len() ==> (#[trigger] old(self).backends@[i]).token != token) ==> *final(self) == *old(self),
            forall|i: int|
                0 <= i < old(self).backends@.len() && token != old(self).frontend_token && (
                #[trigger] old(self).backends@[i]).token == token && (forall|j: int|
                    0 <= j < i ==> old(self).backends@[j].token != token) ==> final(self).backends@[i] == (Backend {
                    token: old(self).backends@[i].token,
                    connection: old(self).backends@[i].connection.spec_with_readiness(
                        crate::ready::Readiness {
                            interest: old(self).backends@[i].connection.spec_readiness().interest,
                            event: old(self).backends@[i].connection.spec_readiness().event.spec_union(
                                events,
                            ),
                        },
                    ),
                }),
            old(self).wf() ==> final(self).wf(),
    {
        if token == self.frontend_token {
            let r = self.frontend.readiness_mut();
            r.event.insert(events);
            return;
        }
        let mut i: usize = 0;
        while i < self.backends.len()
            invariant
                *self == *old(self),
                token != old(self).frontend_token,
                i <= self.backends@.len(),
                forall|j: int|
                    0 <= j < i ==> (#[trigger] old(self).backends@[j]).token != token,
            decreases self.backends@.len() - i,
        {
            if self.backends[i].token == token {
                let b = backend_at(&mut self.backends, i);
                let r = b.connection.readiness_mut();
                r.event.insert(events);
                return;
            }
            i += 1;
        }
    }

    /// A timeout on any owned token closes the session.
    pub fn timeout(&mut self, _token: Token) -> (r: StateResult)
        ensures
            r == StateResult::CloseSession,
            *final(self) == *old(self),
    {
        StateResult::CloseSession
    }

    /// The session holds no timeouts of its own to cancel.
    pub fn cancel_timeouts(&mut self)
        ensures
            *final(self) == *old(self),
    {
    }

    /// A one-line description of the session for diagnostics. Relies on
    /// alloc's string formatting.
    #[verifier::external_body]
    pub fn print_state(&self, context: &str) -> String {
        format!("{} Session(Mux) frontend token {}", context, self.frontend_token.0)
    }

    /// Close the session: every rented buffer region goes back to the pool
    /// (two per stream, stream 0's among them: they are retained until this
    /// point), and the session's pool handle is dead afterwards. A pool
    /// that was already gone has nothing returned to it.
    pub fn close(&mut self)
        requires
            old(self).wf(),
        ensures
            final(self).wf(),
            final(self).streams.streams@.len() == old(self).streams.streams@.len(),
            old(self).streams.pool.alive ==> final(self).streams.pool.available == old(self).streams.pool.available + 2 * old(self).streams.streams@.len(),
            !old(self).streams.pool.alive ==> final(self).streams.pool.available == old(self).streams.pool.available,
            !final(self).streams.pool.alive,
    {
        let n = self.streams.len();
        if self.streams.pool.alive {
            self.streams.pool.put_back(2 * n);
        }
        self.streams.pool.alive = false;
    }
}

} // verus!
