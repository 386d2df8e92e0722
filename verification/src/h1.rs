//! The HTTP/1 engine: one connection bound to one stream for its whole
//! lifetime, a thin adapter over the external parser/serializer pair. The
//! readable path fills the local buffer and parses; the writable path
//! serializes the peer buffer and drains it to the socket.

use vstd::prelude::*;
use crate::msg::{msg_data, msg_out, msg_terminated, out_of};
use crate::ready::{spec_keeps_close_bits, Readiness};
use crate::socket::{SocketHandler, SocketResult};
use crate::stream::{spec_local, spec_peer, Streams};
use crate::Position;

verus! {

/// An HTTP/1 connection: position, readiness, socket and the global index of
/// its bound stream.
pub struct ConnectionH1<Front: SocketHandler> {
    pub position: Position,
    pub readiness: Readiness,
    pub socket: Front,
    pub stream: usize,
}

impl<Front: SocketHandler> ConnectionH1<Front> {
    /// Read into the local buffer, run the parser, and drop readable
    /// interest once the message is terminated: no more bytes are expected
    /// on this side until the next exchange.
    pub fn readable(&mut self, streams: &mut Streams)
        requires
            old(self).stream < old(streams).streams@.len(),
            old(streams).wf(),
        ensures
            final(streams).wf(),
            final(streams).streams@.len() == old(streams).streams@.len(),
            final(streams).pool == old(streams).pool,
            final(self).position == old(self).position,
            final(self).stream == old(self).stream,
            spec_keeps_close_bits(old(self).readiness, final(self).readiness),
            final(self).readiness.interest.writable == old(self).readiness.interest.writable,
            spec_peer(final(streams).streams@[old(self).stream as int], old(self).position)
                == spec_peer(old(streams).streams@[old(self).stream as int], old(self).position),
            msg_data(
                spec_local(old(streams).streams@[old(self).stream as int], old(self).position),
            ).is_prefix_of(
                msg_data(
                    spec_local(
                        final(streams).streams@[old(self).stream as int],
                        old(self).position,
                    ),
                ),
            ),
            old(self).readiness.event.readable && final(self).readiness.event.readable
                ==> msg_data(
                spec_local(final(streams).streams@[old(self).stream as int], old(self).position),
            ).len() > msg_data(
                spec_local(old(streams).streams@[old(self).stream as int], old(self).position),
            ).len(),
            msg_terminated(
                spec_local(
                    final(streams).streams@[old(self).stream as int],
                    old(self).position,
                ),
            ) ==> !final(self).readiness.interest.readable,
            !msg_terminated(
                spec_local(
                    final(streams).streams@[old(self).stream as int],
                    old(self).position,
                ),
            ) ==> final(self).readiness.interest.readable == old(self).readiness.interest.readable,
            forall|j: int|
                0 <= j < old(streams).streams@.len() && j != old(self).stream
                    ==> final(streams).streams@[j] == old(streams).streams@[j],
    {
        let position = self.position;
        let stream = streams.get_mut(self.stream);
        let msg = stream.front(position);
        let space = msg.available_space();
        let (bytes, status) = self.socket.socket_read(space);
        if bytes.len() > 0 {
            msg.push_bytes(&bytes);
        } else {
            self.readiness.event.remove_readable();
        }
        match status {
            SocketResult::Continue => {}
            SocketResult::Closed => self.readiness.event.insert_hup(),
            SocketResult::Error => self.readiness.event.insert_error(),
            SocketResult::WouldBlock => self.readiness.event.remove_readable(),
        }
        msg.parse();
        if msg.is_terminated() {
            self.readiness.interest.remove_readable();
        }
    }

    /// Serialize the peer buffer's parsed blocks into wire form and drain
    /// them to the socket. An empty serialization drops writable interest;
    /// zero write progress clears the writable event but keeps interest.
    pub fn writable(&mut self, streams: &mut Streams)
        requires
            old(self).stream < old(streams).streams@.len(),
            old(streams).wf(),
        ensures
            final(streams).wf(),
            final(streams).streams@.len() == old(streams).streams@.len(),
            final(streams).pool == old(streams).pool,
            final(self).position == old(self).position,
            final(self).stream == old(self).stream,
            spec_keeps_close_bits(old(self).readiness, final(self).readiness),
            final(self).readiness.interest.readable == old(self).readiness.interest.readable,
            spec_local(final(streams).streams@[old(self).stream as int], old(self).position)
                == spec_local(old(streams).streams@[old(self).stream as int], old(self).position),
            old(self).readiness.interest.writable && !final(self).readiness.interest.writable
                ==> msg_out(
                spec_peer(final(streams).streams@[old(self).stream as int], old(self).position),
            ).len() == 0,
            (msg_out(spec_peer(old(streams).streams@[old(self).stream as int], old(self).position))
                + out_of(
                spec_peer(old(streams).streams@[old(self).stream as int], old(self).position),
            )).len() == 0 ==> !final(self).readiness.interest.writable,
            (msg_out(spec_peer(old(streams).streams@[old(self).stream as int], old(self).position))
                + out_of(
                spec_peer(old(streams).streams@[old(self).stream as int], old(self).position),
            )).len() > 0 ==> final(self).readiness.interest.writable == old(self).readiness.interest.writable,
            (msg_out(spec_peer(old(streams).streams@[old(self).stream as int], old(self).position))
                + out_of(
                spec_peer(old(streams).streams@[old(self).stream as int], old(self).position),
            )).len() > 0 ==> (!final(self).readiness.event.writable && msg_out(
                spec_peer(final(streams).streams@[old(self).stream as int], old(self).position),
            ) == msg_out(
                spec_peer(old(streams).streams@[old(self).stream as int], old(self).position),
            ) + out_of(
                spec_peer(old(streams).streams@[old(self).stream as int], old(self).position),
            )) || (exists|k: int|
                0 < k <= (msg_out(
                    spec_peer(old(streams).streams@[old(self).stream as int], old(self).position),
                ) + out_of(
                    spec_peer(old(streams).streams@[old(self).stream as int], old(self).position),
                )).len() && msg_out(
                    spec_peer(final(streams).streams@[old(self).stream as int], old(self).position),
                ) == (msg_out(
                    spec_peer(old(streams).streams@[old(self).stream as int], old(self).position),
                ) + out_of(
                    spec_peer(old(streams).streams@[old(self).stream as int], old(self).position),
                )).skip(k)),
            forall|j: int|
                0 <= j < old(streams).streams@.len() && j != old(self).stream
                    ==> final(streams).streams@[j] == old(streams).streams@[j],
    {
        let position = self.position;
        let stream = streams.get_mut(self.stream);
        let msg = stream.back(position);
        msg.prepare();
        let out = msg.out_bytes();
        if out.len() == 0 {
            self.readiness.interest.remove_writable();
            return;
        }
        let (size, status) = self.socket.socket_write(&out);
        if size > 0 {
            msg.out_consume(size);
        } else {
            self.readiness.event.remove_writable();
        }
        match status {
            SocketResult::Continue => {}
            SocketResult::Closed => self.readiness.event.insert_hup(),
            SocketResult::Error => self.readiness.event.insert_error(),
            SocketResult::WouldBlock => self.readiness.event.remove_writable(),
        }
    }
}

} // verus!
