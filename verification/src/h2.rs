//! The HTTP/2 engine: the connection state machine, settings negotiation,
//! HPACK invocation and per-stream dispatch. An expectation register
//! `(global_index, byte_count)` names the buffer and size of the next
//! complete lexical unit to read; every frame payload is bounded by the
//! negotiated maximum frame size before it is read.

use vstd::prelude::*;
use crate::codec::{
    spec_gen_frame_header,
    gen_frame_header, gen_u32, parse_frame_header, parse_settings_payload, parse_window_update,
    preface_bytes, spec_parse_frame_header, spec_starts_with_preface, FrameHeader, FrameType,
};
use crate::headers::{decode_header_block, extract_header_fragment, flag_set};
use crate::msg::msg_data;
use crate::ready::{Ready, Readiness};
use crate::settings::H2Settings;
use crate::socket::{SocketHandler, SocketResult};
use crate::stream::{spec_local, spec_peer, Streams};
use crate::Position;

verus! {

/// Connection-level state of an H2 connection.
#[derive(Debug, Clone, Copy, PartialEq, Eq, Structural)]
pub enum H2State {
    ClientPreface,
    ClientSettings,
    ServerSettings,
    Header,
    Frame(FrameHeader),
    Error,
}

/// GOAWAY error code for a malformed frame or an unexpected one.
pub const ERROR_PROTOCOL: u32 = 1;
/// GOAWAY error code for a window overflow or underflow.
pub const ERROR_FLOW_CONTROL: u32 = 3;
/// GOAWAY error code for a frame of the wrong size.
pub const ERROR_FRAME_SIZE: u32 = 6;
/// RST_STREAM error code for a stream refused under pool pressure.
pub const ERROR_REFUSED_STREAM: u32 = 7;
/// GOAWAY error code for a header block the decoder rejected.
pub const ERROR_COMPRESSION: u32 = 9;

/// An HTTP/2 connection.
pub struct ConnectionH2<Front: SocketHandler> {
    pub decoder: hpack::Decoder<'static>,
    pub expect: Option<(usize, usize)>,
    pub position: Position,
    pub readiness: Readiness,
    pub settings: H2Settings,
    pub socket: Front,
    pub state: H2State,
    pub streams: Vec<(u32, usize)>,
    /// When a HEADERS block is unfinished, the wire stream whose
    /// CONTINUATION must come next.
    pub expect_continuation: Option<u32>,
    /// The peer sent GOAWAY: drain gracefully, create no new stream.
    pub goaway: bool,
}


/// A sequence opens with itself.
proof fn lemma_prefix_self(a: Seq<u8>)
    ensures
        a.is_prefix_of(a),
{
    assert(a =~= a.subrange(0, a.len() as int));
}

/// A sequence opens anything it was extended into.
proof fn lemma_prefix_append(a: Seq<u8>, b: Seq<u8>)
    ensures
        a.is_prefix_of(a + b),
{
    assert(a =~= (a + b).subrange(0, a.len() as int));
}

/// Opening a prefix of a prefix.
proof fn lemma_prefix_trans(a: Seq<u8>, b: Seq<u8>, c: Seq<u8>)
    requires
        a.is_prefix_of(b),
        b.is_prefix_of(c),
    ensures
        a.is_prefix_of(c),
{
    assert(a =~= c.subrange(0, a.len() as int));
}

/// The global index the wire-to-global map resolves a wire id to: the first
/// matching entry.
pub open spec fn spec_lookup(map: Seq<(u32, usize)>, sid: u32) -> Option<usize>
    decreases map.len(),
{
    if map.len() == 0 {
        None
    } else if map[0].0 == sid {
        Some(map[0].1)
    } else {
        spec_lookup(map.skip(1), sid)
    }
}

/// The 31-bit increment carried by the last four bytes of a buffer.
pub open spec fn spec_wu_increment(d: Seq<u8>) -> int
    recommends
        d.len() >= 4,
{
    crate::codec::spec_u32_at(d, d.len() - 4) as int % 0x80000000
}

/// Where a frame's payload is routed: HEADERS and CONTINUATION reassemble at
/// index 0; every other payload goes to the stream the map resolves, index 0
/// standing in for the connection scope and for unresolvable ids.
pub open spec fn spec_frame_target(h: FrameHeader, map: Seq<(u32, usize)>) -> int {
    if h.frame_type == FrameType::Headers || h.frame_type == FrameType::Continuation
        || h.stream_id == 0 {
        0
    } else {
        match spec_lookup(map, h.stream_id) {
            Some(g) => g as int,
            None => 0,
        }
    }
}

impl<Front: SocketHandler> ConnectionH2<Front> {
    /// Every entry of the wire-to-global map points to an existing stream.
    pub open spec fn wf_map(self, n: int) -> bool {
        forall|i: int| 0 <= i < self.streams@.len() ==> (#[trigger] self.streams@[i]).1 < n
    }

    /// The expectation register points to an existing stream.
    pub open spec fn wf_expect(self, table: Streams) -> bool {
        match self.expect {
            Some(e) => e.0 < table.streams@.len(),
            None => true,
        }
    }

    /// A frame being read is well-formed and never exceeds the negotiated
    /// maximum frame size.
    pub open spec fn wf_frame(self) -> bool {
        match self.state {
            H2State::Frame(h) => h.wf() && h.payload_len
                <= self.settings.settings_max_frame_size,
            _ => true,
        }
    }

    /// Well-formed with respect to the session's stream table.
    pub open spec fn wf(self, table: Streams) -> bool {
        self.wf_map(table.streams@.len() as int) && self.wf_expect(table) && self.wf_frame()
    }

    /// Decide well-formedness against a table at run time, for callers that
    /// assembled the connection outside verified code.
    pub fn check_wf(&self, streams: &Streams) -> (r: bool)
        ensures
            r == self.wf(*streams),
    {
        let n = streams.len();
        let mut i: usize = 0;
        while i < self.streams.len()
            invariant
                i <= self.streams@.len(),
                n == streams.streams@.len(),
                forall|j: int| 0 <= j < i ==> (#[trigger] self.streams@[j]).1 < n,
            decreases self.streams@.len() - i,
        {
            if self.streams[i].1 >= n {
                return false;
            }
            i += 1;
        }
        match self.expect {
            Some(e) => {
                if e.0 >= n {
                    return false;
                }
            }
            None => {}
        }
        match self.state {
            H2State::Frame(h) => {
                if h.payload_len >= 0x1000000 || h.stream_id >= 0x80000000 || h.payload_len
                    > self.settings.settings_max_frame_size {
                    return false;
                }
            }
            _ => {}
        }
        true
    }

    /// Look a wire stream identifier up in the map: the first matching
    /// entry.
    pub fn find_stream(&self, stream_id: u32) -> (r: Option<usize>)
        ensures
            r == spec_lookup(self.streams@, stream_id),
            r matches Some(g) ==> exists|i: int|
                0 <= i < self.streams@.len() && (#[trigger] self.streams@[i]) == (stream_id, g),
            r is None ==> forall|i: int|
                0 <= i < self.streams@.len() ==> (#[trigger] self.streams@[i]).0 != stream_id,
    {
        let mut i: usize = 0;
        proof {
            assert(self.streams@.skip(0) =~= self.streams@);
        }
        while i < self.streams.len()
            invariant
                i <= self.streams@.len(),
                spec_lookup(self.streams@, stream_id) == spec_lookup(
                    self.streams@.skip(i as int),
                    stream_id,
                ),
                forall|j: int|
                    0 <= j < i ==> (#[trigger] self.streams@[j]).0 != stream_id,
            decreases self.streams@.len() - i,
        {
            proof {
                assert(self.streams@.skip(i as int)[0] == self.streams@[i as int]);
                assert(self.streams@.skip(i as int).skip(1) =~= self.streams@.skip(i + 1));
            }
            let (wire, global) = self.streams[i];
            if wire == stream_id {
                return Some(global);
            }
            i += 1;
        }
        proof {
            assert(self.streams@.skip(self.streams@.len() as int).len() == 0);
        }
        None
    }

    /// Drop the map entry of a wire stream, if any: its peer-side state is
    /// terminal and it can no longer be addressed.
    fn remove_stream(&mut self, stream_id: u32)
        ensures
            forall|i: int|
                0 <= i < final(self).streams@.len() ==> old(self).streams@.contains(
                    #[trigger] final(self).streams@[i],
                ),
            forall|i: int|
                0 <= i < final(self).streams@.len() ==> (#[trigger] final(self).streams@[i]).0
                    != stream_id,
            *final(self) == (ConnectionH2 { streams: final(self).streams, ..*old(self) }),
    {
        let mut kept: Vec<(u32, usize)> = Vec::new();
        let mut i: usize = 0;
        while i < self.streams.len()
            invariant
                i <= self.streams@.len(),
                self.streams@ == old(self).streams@,
                *self == (ConnectionH2 { streams: self.streams, ..*old(self) }),
                forall|k: int|
                    0 <= k < kept@.len() ==> old(self).streams@.contains(#[trigger] kept@[k]),
                forall|k: int|
                    0 <= k < kept@.len() ==> (#[trigger] kept@[k]).0 != stream_id,
            decreases self.streams@.len() - i,
        {
            let entry = self.streams[i];
            if entry.0 != stream_id {
                proof {
                    assert(self.streams@[i as int] == old(self).streams@[i as int]);
                }
                kept.push(entry);
            }
            i += 1;
        }
        self.streams = kept;
    }

    /// Queue control bytes into the session-scoped peer buffer and raise
    /// writable interest. Fails, changing nothing, when the buffer lacks
    /// room.
    fn emit_control(&mut self, streams: &mut Streams, bytes: &Vec<u8>) -> (r: bool)
        requires
            old(streams).wf(),
        ensures
            final(streams).wf(),
            final(streams).streams@.len() == old(streams).streams@.len(),
            final(streams).pool == old(streams).pool,
            final(self).position == old(self).position,
            final(self).state == old(self).state,
            final(self).expect == old(self).expect,
            final(self).settings == old(self).settings,
            final(self).streams@ == old(self).streams@,
            final(self).goaway == old(self).goaway,
            final(self).expect_continuation == old(self).expect_continuation,
            r ==> crate::msg::msg_data(
                spec_peer(final(streams).streams@[0], old(self).position),
            ) == crate::msg::msg_data(spec_peer(old(streams).streams@[0], old(self).position))
                + bytes@ && final(self).readiness.interest.writable && final(self).readiness.interest.readable == old(self).readiness.interest.readable && final(self).readiness.event == old(self).readiness.event,
            !r ==> *final(streams) == *old(streams) && *final(self) == *old(self),
            forall|j: int|
                0 <= j < old(streams).streams@.len() ==> spec_local(
                    #[trigger] final(streams).streams@[j],
                    final(self).position,
                ) == spec_local(old(streams).streams@[j], old(self).position),
            forall|j: int|
                0 <= j < old(streams).streams@.len() ==> (#[trigger] final(streams).streams@[j]).window == old(streams).streams@[j].window,
    {
        let position = self.position;
        let space = {
            let s = streams.get(0);
            match position {
                Position::Server => s.back.available_space(),
                Position::Client => s.front.available_space(),
            }
        };
        if bytes.len() <= space {
            let stream = streams.get_mut(0);
            let msg = stream.back(position);
            msg.push_bytes(bytes);
            self.readiness.interest.insert_writable();
            true
        } else {
            false
        }
    }

    /// Fail the connection: queue a GOAWAY with the given error code if the
    /// buffer allows, enter the *Error* state and expect nothing more.
    fn fail(&mut self, streams: &mut Streams, code: u32)
        requires
            old(streams).wf(),
        ensures
            final(streams).wf(),
            final(streams).streams@.len() == old(streams).streams@.len(),
            final(streams).pool == old(streams).pool,
            final(self).position == old(self).position,
            final(self).state == H2State::Error,
            final(self).expect is None,
            final(self).settings == old(self).settings,
            final(self).streams@ == old(self).streams@,
            final(self).goaway == old(self).goaway,
            final(self).expect_continuation == old(self).expect_continuation,
            final(self).wf_expect(*final(streams)),
            final(self).wf_frame(),
    {
        let mut frame = gen_frame_header(
            &FrameHeader {
                payload_len: 8,
                frame_type: FrameType::GoAway,
                flags: 0,
                stream_id: 0,
            },
        );
        let mut last = gen_u32(0);
        let mut ec = gen_u32(code);
        frame.append(&mut last);
        frame.append(&mut ec);
        let _ = self.emit_control(streams, &frame);
        self.state = H2State::Error;
        self.expect = None;
    }

    /// Point the expectation register at `amount` bytes for the local
    /// buffer of stream `gi`.
    fn set_expect(&mut self, streams: &Streams, gi: usize, amount: usize)
        requires
            gi < streams.streams@.len(),
        ensures
            *final(self) == (ConnectionH2 { expect: Some((gi, amount)), ..*old(self) }),
            final(self).wf_expect(*streams),
    {
        self.expect = Some((gi, amount));
    }

    /// Create a stream for a new wire identifier: rent both buffers and
    /// record the mapping. `None` under pool pressure, with the table
    /// unchanged, so the caller can refuse the stream instead.
    pub fn create_stream(&mut self, stream_id: u32, streams: &mut Streams) -> (r: Option<usize>)
        requires
            old(streams).wf(),
        ensures
            final(streams).wf(),
            final(streams).streams@.len() >= old(streams).streams@.len(),
            final(self).position == old(self).position,
            final(self).state == old(self).state,
            final(self).expect == old(self).expect,
            final(self).settings == old(self).settings,
            final(self).goaway == old(self).goaway,
            final(self).expect_continuation == old(self).expect_continuation,
            r is Some <==> old(streams).pool.alive && old(streams).pool.available >= 2,
            r matches Some(g) ==> g < final(streams).streams@.len() && final(self).streams@ == old(self).streams@.push((stream_id, g as usize)),
            r is None ==> *final(streams) == *old(streams) && final(self).streams@ == old(self).streams@,
            forall|j: int|
                0 <= j < old(streams).streams@.len() ==> final(streams).streams@[j] == old(streams).streams@[j],
    {
        let window = if self.settings.settings_initial_window_size > 0x7fffffff {
            0x7fffffffu32
        } else {
            self.settings.settings_initial_window_size
        };
        match streams.create_stream(crate::id::generate_request_id(), window) {
            Ok(g) => {
                self.streams.push((stream_id, g));
                Some(g)
            }
            Err(_) => None,
        }
    }

    /// Where the payload of the coming frame belongs: DATA goes to its
    /// stream's local buffer, every other payload to the session-scoped
    /// buffer at index 0.
    fn payload_target(&self, h: &FrameHeader) -> (r: usize)
        ensures
            r as int == spec_frame_target(*h, self.streams@),
            r == 0 || exists|i: int|
                0 <= i < self.streams@.len() && (#[trigger] self.streams@[i]) == (h.stream_id, r),
    {
        match h.frame_type {
            FrameType::Headers | FrameType::Continuation => 0,
            _ => {
                if h.stream_id == 0 {
                    0
                } else {
                    match self.find_stream(h.stream_id) {
                        Some(g) => g,
                        None => 0,
                    }
                }
            }
        }
    }

    /// The last `len` bytes of the buffer a frame's payload was read into:
    /// the payload itself, behind whatever the stream already held.
    fn payload_tail(&self, streams: &Streams, target: usize, len: usize) -> (r: Option<Vec<u8>>)
        requires
            target < streams.streams@.len(),
        ensures
            r is Some <==> len <= msg_data(
                spec_local(streams.streams@[target as int], self.position),
            ).len(),
            r matches Some(v) ==> v@ == msg_data(
                spec_local(streams.streams@[target as int], self.position),
            ).skip(
                msg_data(spec_local(streams.streams@[target as int], self.position)).len() - len,
            ),
    {
        let s = streams.get(target);
        let m = match self.position {
            Position::Server => &s.front,
            Position::Client => &s.back,
        };
        let data = m.data_bytes();
        if data.len() < len {
            return None;
        }
        let t = crate::codec::subvec(&data, data.len() - len, data.len());
        proof {
            assert(t@ =~= data@.skip(data@.len() - len));
        }
        Some(t)
    }

    /// Read toward the pending expectation; when the whole lexical unit has
    /// arrived, dispatch on the connection state. With no expectation the
    /// readable event is cleared until the state machine sets a new one.
    pub fn readable(&mut self, streams: &mut Streams)
        requires
            old(self).wf(*old(streams)),
            old(streams).wf(),
        ensures
            final(self).wf(*final(streams)),
            final(streams).wf(),
            final(streams).streams@.len() >= old(streams).streams@.len(),
            final(self).position == old(self).position,
            match old(self).expect {
                Some(e) => e.1 > 0 ==> {
                    ||| (!final(self).readiness.event.readable && *final(streams) == *old(streams)
                        && final(self).state == old(self).state && final(self).expect == old(self).expect && final(self).readiness.interest == old(self).readiness.interest
                        && final(self).settings == old(self).settings && final(self).streams@
                        == old(self).streams@)
                    ||| (final(self).state == old(self).state && (match final(self).expect {
                        Some(e2) => e2.0 == e.0 && e2.1 < e.1,
                        None => false,
                    }))
                    ||| final(self).state != old(self).state
                    ||| final(self).expect is None
                    ||| (final(self).expect == Some((0usize, 9usize)) && msg_data(
                        spec_local(final(streams).streams@[0], old(self).position),
                    ).len() == 0)
                },
                None => true,
            },
            old(self).expect is None ==> *final(streams) == *old(streams) && *final(self) == (
            ConnectionH2 {
                readiness: Readiness {
                    interest: old(self).readiness.interest,
                    event: Ready { readable: false, ..old(self).readiness.event },
                },
                ..*old(self)
            }),
            match (old(self).expect, final(self).expect) {
                (Some(e), Some(e2)) => (e2.0 == e.0 && e2.1 < e.1 && final(self).state == old(self).state && msg_data(
                    spec_local(final(streams).streams@[e.0 as int], old(self).position),
                ).len() > 0) ==> {
                    &&& final(streams).streams@.len() == old(streams).streams@.len()
                    &&& msg_data(
                        spec_local(old(streams).streams@[e.0 as int], old(self).position),
                    ).is_prefix_of(
                        msg_data(
                            spec_local(final(streams).streams@[e.0 as int], old(self).position),
                        ),
                    )
                    &&& msg_data(
                        spec_local(final(streams).streams@[e.0 as int], old(self).position),
                    ).len() == msg_data(
                        spec_local(old(streams).streams@[e.0 as int], old(self).position),
                    ).len() + (e.1 - e2.1)
                },
                _ => true,
            },
    {
        let position = self.position;
        let (gi, amount) = match self.expect {
            Some(e) => e,
            None => {
                self.readiness.event.remove_readable();
                return;
            }
        };
        if amount == 0 {
            // the lexical unit is empty: nothing to read, dispatch at once
            self.expect = None;
            self.dispatch(streams);
            return;
        }
        let space = {
            let s = streams.get(gi);
            match position {
                Position::Server => s.front.available_space(),
                Position::Client => s.back.available_space(),
            }
        };
        let room = if amount < space {
            amount
        } else {
            space
        };
        if room == 0 {
            // the buffer is full: wait until it drains
            self.readiness.event.remove_readable();
            return;
        }
        let (bytes, status) = self.socket.socket_read(room);
        let n = bytes.len();
        if n == 0 {
            self.readiness.event.remove_readable();
            match status {
                SocketResult::Closed => self.readiness.event.insert_hup(),
                SocketResult::Error => self.readiness.event.insert_error(),
                _ => {}
            }
            return;
        }
        {
            let stream = streams.get_mut(gi);
            let msg = stream.front(position);
            msg.push_bytes(&bytes);
        }
        if n == amount {
            self.expect = None;
        } else {
            self.expect = Some((gi, amount - n));
            return;
        }
        self.dispatch(streams);
    }

    /// One full lexical unit is in its buffer: advance the state machine.
    #[verifier::rlimit(60)]
    fn dispatch(&mut self, streams: &mut Streams)
        requires
            old(self).wf_map(old(streams).streams@.len() as int),
            old(self).wf_frame(),
            old(self).expect is None,
            old(streams).wf(),
        ensures
            final(self).wf(*final(streams)),
            final(streams).wf(),
            final(streams).streams@.len() >= old(streams).streams@.len(),
            final(self).position == old(self).position,
            final(self).state == old(self).state ==> final(self).expect is None || (final(self).expect == Some((0usize, 9usize)) && msg_data(
                spec_local(final(streams).streams@[0], old(self).position),
            ).len() == 0),
            old(self).state == H2State::Header && msg_data(
                spec_local(old(streams).streams@[0], old(self).position),
            ).len() >= 9 ==> match spec_parse_frame_header(
                msg_data(spec_local(old(streams).streams@[0], old(self).position)).subrange(0, 9),
            ) {
                Some(fh) => (0 < fh.payload_len && fh.payload_len <= old(self).settings.settings_max_frame_size && old(self).expect_continuation is None)
                    ==> final(self).state == H2State::Frame(fh) && (match final(self).expect {
                    Some(t) => t.0 as int == spec_frame_target(fh, final(self).streams@) && t.1
                        == fh.payload_len,
                    None => false,
                }),
                None => true,
            },
            old(self).state == H2State::ClientPreface && old(self).position == Position::Server
                && spec_preface_frame(
                msg_data(spec_local(old(streams).streams@[0], Position::Server)),
            ) is None ==> final(self).state == H2State::Error,
            old(self).state == H2State::ClientPreface && old(self).position == Position::Server
                ==> match spec_preface_frame(
                msg_data(spec_local(old(streams).streams@[0], Position::Server)),
            ) {
                Some(h) => h.payload_len <= old(self).settings.settings_max_frame_size ==> final(self).state == H2State::ClientSettings && final(self).expect == Some(
                    (0usize, h.payload_len as usize),
                ),
                None => true,
            },
            old(self).state == H2State::ClientSettings && old(self).position == Position::Server
                && final(self).state == H2State::ServerSettings ==> {
                &&& final(self).settings == crate::settings::spec_apply_settings(
                    old(self).settings,
                    crate::codec::spec_settings_entries(
                        msg_data(spec_local(old(streams).streams@[0], Position::Server)),
                    ),
                )
                &&& final(self).expect is None
                &&& !final(self).readiness.interest.readable
                &&& final(self).readiness.interest.writable
                &&& msg_data(spec_peer(final(streams).streams@[0], Position::Server)) == msg_data(
                    spec_peer(old(streams).streams@[0], Position::Server),
                ) + spec_gen_frame_header(
                    FrameHeader {
                        payload_len: 0,
                        frame_type: FrameType::Settings,
                        flags: 0,
                        stream_id: 0,
                    },
                ) + spec_gen_frame_header(
                    FrameHeader {
                        payload_len: 0,
                        frame_type: FrameType::Settings,
                        flags: 1,
                        stream_id: 0,
                    },
                )
            },
    {
        let position = self.position;
        let st = self.state;
        match (st, position) {
            (H2State::ClientPreface, Position::Server) => {
                let data = {
                    let stream = streams.get_mut(0);
                    stream.front(position).data_bytes()
                };
                match process_client_preface(&data) {
                    Some(h) => {
                        {
                            let stream = streams.get_mut(0);
                            stream.front(position).storage_clear();
                        }
                        if h.payload_len > self.settings.settings_max_frame_size {
                            self.fail(streams, ERROR_FRAME_SIZE);
                            return;
                        }
                        self.state = H2State::ClientSettings;
                        self.set_expect(streams, 0, h.payload_len as usize);
                    }
                    None => {
                        self.fail(streams, ERROR_PROTOCOL);
                    }
                }
            }
            (H2State::ClientSettings, Position::Server) => {
                let data = {
                    let stream = streams.get_mut(0);
                    stream.front(position).data_bytes()
                };
                match parse_settings_payload(data.as_slice()) {
                    Some(list) => {
                        if !crate::settings::settings_window_ok(&list) {
                            // an initial window above 2^31 - 1 is a
                            // flow-control error
                            self.fail(streams, ERROR_FLOW_CONTROL);
                            return;
                        }
                        self.settings.apply_settings(&list);
                        {
                            let stream = streams.get_mut(0);
                            stream.front(position).storage_clear();
                        }
                        // our SETTINGS (no departure from the defaults, so an
                        // empty payload) followed by the SETTINGS-ACK
                        let mut frame = gen_frame_header(
                            &FrameHeader {
                                payload_len: 0,
                                frame_type: FrameType::Settings,
                                flags: 0,
                                stream_id: 0,
                            },
                        );
                        let mut ack = gen_frame_header(
                            &FrameHeader {
                                payload_len: 0,
                                frame_type: FrameType::Settings,
                                flags: 1,
                                stream_id: 0,
                            },
                        );
                        frame.append(&mut ack);
                        if !self.emit_control(streams, &frame) {
                            self.state = H2State::Error;
                            self.expect = None;
                            return;
                        }
                        self.readiness.interest.remove_readable();
                        self.state = H2State::ServerSettings;
                        self.expect = None;
                    }
                    None => {
                        self.fail(streams, ERROR_FRAME_SIZE);
                    }
                }
            }
            (H2State::ServerSettings, Position::Client) => {
                // the server's first frame must be its SETTINGS
                let data = {
                    let stream = streams.get_mut(0);
                    stream.front(position).data_bytes()
                };
                match parse_frame_header(data.as_slice()) {
                    Some(h) => {
                        {
                            let stream = streams.get_mut(0);
                            stream.front(position).storage_clear();
                        }
                        let is_settings = h.frame_type == FrameType::Settings;
                        if !is_settings || flag_set(h.flags, 1) {
                            self.fail(streams, ERROR_PROTOCOL);
                            return;
                        }
                        if h.payload_len > self.settings.settings_max_frame_size {
                            self.fail(streams, ERROR_FRAME_SIZE);
                            return;
                        }
                        self.handle_sized_frame(h, streams);
                    }
                    None => {
                        self.fail(streams, ERROR_PROTOCOL);
                    }
                }
            }
            (H2State::Header, _) => {
                let data = {
                    let stream = streams.get_mut(0);
                    stream.front(position).data_bytes()
                };
                match parse_frame_header(data.as_slice()) {
                    Some(h) => {
                        {
                            let stream = streams.get_mut(0);
                            stream.front(position).storage_clear();
                        }
                        // a frame larger than the negotiated maximum is a
                        // connection error
                        if h.payload_len > self.settings.settings_max_frame_size {
                            self.fail(streams, ERROR_FRAME_SIZE);
                            return;
                        }
                        // an unfinished header block admits only its own
                        // CONTINUATION
                        match self.expect_continuation {
                            Some(sid) => {
                                let is_cont = h.frame_type == FrameType::Continuation;
                                if !is_cont || h.stream_id != sid {
                                    self.fail(streams, ERROR_PROTOCOL);
                                    return;
                                }
                            }
                            None => {}
                        }
                        // an unknown, non-zero wire stream gets a fresh
                        // stream, or a REFUSED_STREAM under pool pressure
                        if h.stream_id != 0 {
                            match self.find_stream(h.stream_id) {
                                Some(_) => {}
                                None => {
                                    if !self.goaway {
                                        match self.create_stream(h.stream_id, streams) {
                                            Some(_) => {}
                                            None => {
                                                let mut rst = gen_frame_header(
                                                    &FrameHeader {
                                                        payload_len: 4,
                                                        frame_type: FrameType::RstStream,
                                                        flags: 0,
                                                        stream_id: h.stream_id,
                                                    },
                                                );
                                                let mut code = gen_u32(ERROR_REFUSED_STREAM);
                                                rst.append(&mut code);
                                                let _ = self.emit_control(streams, &rst);
                                            }
                                        }
                                    }
                                }
                            }
                        }
                        self.handle_sized_frame(h, streams);
                    }
                    None => {
                        self.fail(streams, ERROR_PROTOCOL);
                    }
                }
            }
            (H2State::Frame(h), _) => {
                let target = self.payload_target(&h);
                proof {
                    if target != 0 {
                        let i = choose|i: int|
                            0 <= i < self.streams@.len() && (#[trigger] self.streams@[i]) == (
                                h.stream_id,
                                target,
                            );
                        assert((self.streams@[i]).1 < streams.streams@.len() as int);
                    }
                }
                self.state = H2State::Header;
                self.handle_frame(h, target, streams);
                match self.state {
                    H2State::Error => {}
                    _ => {
                        // a control payload is spent once handled; DATA
                        // stays in its stream's message
                        let keep = match h.frame_type {
                            FrameType::Data => target != 0,
                            _ => false,
                        };
                        if !keep && target != 0 && target < streams.len() {
                            let stream = streams.get_mut(target);
                            stream.front(position).storage_clear();
                        }
                        {
                            let stream = streams.get_mut(0);
                            stream.front(position).storage_clear();
                        }
                        self.set_expect(streams, 0, 9);
                    }
                }
            }
            _ => {
                self.readiness.event.remove_readable();
            }
        }
    }

    /// A frame header has passed the size gate: read its payload, or handle
    /// it at once when it has none.
    fn handle_sized_frame(&mut self, h: FrameHeader, streams: &mut Streams)
        requires
            old(self).wf_map(old(streams).streams@.len() as int),
            old(self).expect is None,
            old(streams).wf(),
            h.wf(),
            h.payload_len <= old(self).settings.settings_max_frame_size,
        ensures
            final(self).wf(*final(streams)),
            final(streams).wf(),
            final(streams).streams@.len() >= old(streams).streams@.len(),
            final(self).position == old(self).position,
            final(self).state == H2State::Header || final(self).state == H2State::Frame(h)
                || final(self).state == H2State::Error,
            0 < h.payload_len ==> final(self).state == H2State::Frame(h) && (match final(self).expect {
                Some(t) => t.0 as int == spec_frame_target(h, final(self).streams@) && t.1
                    == h.payload_len,
                None => false,
            }),
            final(self).state == H2State::Header ==> final(self).expect is None || (final(self).expect == Some((0usize, 9usize)) && msg_data(
                spec_local(final(streams).streams@[0], old(self).position),
            ).len() == 0),
    {
        let position = self.position;
        if h.payload_len == 0 {
            self.state = H2State::Header;
            self.handle_frame(h, 0, streams);
            match self.state {
                H2State::Error => {}
                _ => {
                    {
                        let stream = streams.get_mut(0);
                        stream.front(position).storage_clear();
                    }
                    self.set_expect(streams, 0, 9);
                }
            }
            return;
        }
        let target = self.payload_target(&h);
        proof {
            if target != 0 {
                let i = choose|i: int|
                    0 <= i < self.streams@.len() && (#[trigger] self.streams@[i]) == (
                        h.stream_id,
                        target,
                    );
                assert((self.streams@[i]).1 < streams.streams@.len() as int);
            }
        }
        self.state = H2State::Frame(h);
        self.set_expect(streams, target, h.payload_len as usize);
    }

    /// Handle one complete frame. Control payloads sit in the session-scoped
    /// buffer; a DATA payload has already been appended to its stream's
    /// local buffer at `target`.
    #[verifier::rlimit(60)]
    fn handle_frame(&mut self, h: FrameHeader, target: usize, streams: &mut Streams)
        requires
            old(self).wf_map(old(streams).streams@.len() as int),
            old(self).expect is None,
            old(self).state == H2State::Header,
            old(streams).wf(),
            target < old(streams).streams@.len(),
            h.wf(),
        ensures
            final(self).wf_map(final(streams).streams@.len() as int),
            final(self).expect is None,
            final(self).state == H2State::Header || final(self).state == H2State::Error,
            final(self).wf_frame(),
            final(self).wf_expect(*final(streams)),
            final(streams).wf(),
            final(streams).streams@.len() >= old(streams).streams@.len(),
            final(self).position == old(self).position,
            h.frame_type == FrameType::GoAway && h.stream_id == 0 && 8 <= h.payload_len
                ==> final(self).goaway && final(self).state == H2State::Header,
            h.frame_type == FrameType::RstStream && h.payload_len == 4 ==> final(self).state
                == H2State::Header && forall|i: int|
                0 <= i < final(self).streams@.len() ==> (#[trigger] final(self).streams@[i]).0
                    != h.stream_id,
            h.frame_type == FrameType::Settings && !crate::headers::spec_flag(h.flags, 1)
                && final(self).state == H2State::Header ==> {
                &&& msg_data(spec_local(old(streams).streams@[0], old(self).position)).len() % 6
                    == 0
                &&& final(self).settings == crate::settings::spec_apply_settings(
                    old(self).settings,
                    crate::codec::spec_settings_entries(
                        msg_data(spec_local(old(streams).streams@[0], old(self).position)),
                    ),
                )
                &&& msg_data(spec_peer(final(streams).streams@[0], old(self).position))
                    == msg_data(spec_peer(old(streams).streams@[0], old(self).position))
                    + spec_gen_frame_header(
                    FrameHeader {
                        payload_len: 0,
                        frame_type: FrameType::Settings,
                        flags: 1,
                        stream_id: 0,
                    },
                )
            },
            h.frame_type == FrameType::Ping && h.stream_id == 0 && h.payload_len == 8
                && msg_data(spec_local(old(streams).streams@[0], old(self).position)).len() == 8
                && !crate::headers::spec_flag(h.flags, 1) && final(self).state == H2State::Header
                ==> {
                &&& msg_data(spec_peer(final(streams).streams@[0], old(self).position))
                    == msg_data(spec_peer(old(streams).streams@[0], old(self).position))
                    + spec_gen_frame_header(
                    FrameHeader {
                        payload_len: 8,
                        frame_type: FrameType::Ping,
                        flags: 1,
                        stream_id: 0,
                    },
                ) + msg_data(spec_local(old(streams).streams@[0], old(self).position))
                &&& final(self).settings == old(self).settings
                &&& forall|j: int|
                    0 <= j < old(streams).streams@.len() ==> final(streams).streams@[j].window
                        == old(streams).streams@[j].window
            },
            (h.frame_type == FrameType::Headers || h.frame_type == FrameType::Continuation)
                && final(self).state == H2State::Header ==> final(self).expect_continuation == (
            if crate::headers::spec_flag(h.flags, 4) {
                Option::<u32>::None
            } else {
                Some(h.stream_id)
            }),
            h.frame_type == FrameType::WindowUpdate && h.stream_id == 0 && h.payload_len == 4
                && msg_data(
                spec_local(old(streams).streams@[0], old(self).position),
            ).len() == 4 ==> {
                &&& (old(streams).streams@[0].window + crate::codec::spec_u32_at(
                    msg_data(spec_local(old(streams).streams@[0], old(self).position)),
                    0,
                ) % 0x80000000 > 0x7fffffff <==> final(self).state == H2State::Error)
                &&& (final(self).state == H2State::Header ==> final(streams).streams@[0].window == old(streams).streams@[0].window + crate::codec::spec_u32_at(
                    msg_data(spec_local(old(streams).streams@[0], old(self).position)),
                    0,
                ) % 0x80000000)
            },
            h.frame_type == FrameType::WindowUpdate && h.stream_id != 0 && h.payload_len == 4
                ==> match spec_lookup(old(self).streams@, h.stream_id) {
                Some(g) => 4 <= msg_data(
                    spec_local(old(streams).streams@[g as int], old(self).position),
                ).len() ==> {
                    &&& (old(streams).streams@[g as int].window + spec_wu_increment(
                        msg_data(spec_local(old(streams).streams@[g as int], old(self).position)),
                    ) > 0x7fffffff <==> final(self).state == H2State::Error)
                    &&& (final(self).state == H2State::Header ==> final(streams).streams@[g as int].window == old(streams).streams@[g as int].window
                        + spec_wu_increment(
                        msg_data(spec_local(old(streams).streams@[g as int], old(self).position)),
                    ) && forall|j: int|
                        0 <= j < old(streams).streams@.len() && j != g ==> final(streams).streams@[j].window == old(streams).streams@[j].window)
                },
                None => final(self).state == H2State::Header && *final(streams) == *old(streams),
            },
    {
        let position = self.position;
        match h.frame_type {
            FrameType::Data => {
                if h.stream_id == 0 {
                    // DATA is never connection-scoped
                    self.fail(streams, ERROR_PROTOCOL);
                    return;
                }
                if target != 0 {
                    // debit the stream window and the connection window
                    let len: i64 = h.payload_len as i64;
                    let sw: i32 = streams.get(target).window;
                    let cw: i32 = streams.get(0).window;
                    if (sw as i64) - len < -2147483648i64 || (cw as i64) - len < -2147483648i64 {
                        self.fail(streams, ERROR_FLOW_CONTROL);
                        return;
                    }
                    {
                        let stream = streams.get_mut(target);
                        stream.window = ((sw as i64) - len) as i32;
                    }
                    {
                        let stream = streams.get_mut(0);
                        stream.window = ((cw as i64) - len) as i32;
                    }
                    // a spent window pauses reads until credit returns
                    if (sw as i64) - len <= 0 || (cw as i64) - len <= 0 {
                        self.readiness.interest.remove_readable();
                    }
                }
            }
            FrameType::Headers | FrameType::Continuation => {
                let payload = {
                    let stream = streams.get_mut(0);
                    stream.front(position).data_bytes()
                };
                let fragment = match h.frame_type {
                    FrameType::Headers => extract_header_fragment(&payload, h.flags),
                    _ => Some(payload),
                };
                let fragment = match fragment {
                    Some(f) => f,
                    None => {
                        self.fail(streams, ERROR_PROTOCOL);
                        return;
                    }
                };
                if !crate::headers::block_safe(&fragment) {
                    // hpack cannot reject this block gracefully
                    self.fail(streams, ERROR_COMPRESSION);
                    return;
                }
                match decode_header_block(&mut self.decoder, &fragment) {
                    Ok(pairs) => {
                        // commit the decoded fields into the stream's
                        // message in wire form
                        let lines = crate::headers::encode_header_lines(&pairs);
                        match self.find_stream(h.stream_id) {
                            Some(g) => {
                                proof {
                                    let i = choose|i: int|
                                        0 <= i < self.streams@.len() && (
                                        #[trigger] self.streams@[i]) == (h.stream_id, g);
                                    assert((self.streams@[i]).1
                                        < streams.streams@.len() as int);
                                }
                                let fits = {
                                    let stream = streams.get_mut(g);
                                    lines.len() <= stream.front(position).available_space()
                                };
                                if !fits {
                                    // the header section exceeds the rented
                                    // region
                                    self.fail(streams, ERROR_PROTOCOL);
                                    return;
                                }
                                let stream = streams.get_mut(g);
                                stream.front(position).push_bytes(&lines);
                            }
                            None => {}
                        }
                        if flag_set(h.flags, 4) {
                            self.expect_continuation = None;
                        } else {
                            self.expect_continuation = Some(h.stream_id);
                        }
                    }
                    Err(_) => {
                        self.fail(streams, ERROR_COMPRESSION);
                    }
                }
            }
            FrameType::Priority => {
                if h.payload_len != 5 {
                    self.fail(streams, ERROR_FRAME_SIZE);
                }
            }
            FrameType::RstStream => {
                if h.payload_len != 4 {
                    self.fail(streams, ERROR_FRAME_SIZE);
                } else {
                    self.remove_stream(h.stream_id);
                }
            }
            FrameType::Settings => {
                if h.stream_id != 0 {
                    // SETTINGS is connection-scoped
                    self.fail(streams, ERROR_PROTOCOL);
                    return;
                }
                if flag_set(h.flags, 1) {
                    // the peer acknowledged our SETTINGS
                    if h.payload_len != 0 {
                        self.fail(streams, ERROR_FRAME_SIZE);
                    }
                    return;
                }
                let payload = {
                    let stream = streams.get_mut(0);
                    stream.front(position).data_bytes()
                };
                match parse_settings_payload(payload.as_slice()) {
                    Some(list) => {
                        if !crate::settings::settings_window_ok(&list) {
                            // an initial window above 2^31 - 1 is a
                            // flow-control error
                            self.fail(streams, ERROR_FLOW_CONTROL);
                            return;
                        }
                        self.settings.apply_settings(&list);
                        let ack = gen_frame_header(
                            &FrameHeader {
                                payload_len: 0,
                                frame_type: FrameType::Settings,
                                flags: 1,
                                stream_id: 0,
                            },
                        );
                        if !self.emit_control(streams, &ack) {
                            self.state = H2State::Error;
                            self.expect = None;
                        }
                    }
                    None => {
                        self.fail(streams, ERROR_FRAME_SIZE);
                    }
                }
            }
            FrameType::PushPromise => {
                // nothing here ever promises a push
                self.fail(streams, ERROR_PROTOCOL);
            }
            FrameType::Ping => {
                if h.stream_id != 0 {
                    // PING is connection-scoped
                    self.fail(streams, ERROR_PROTOCOL);
                    return;
                }
                if h.payload_len != 8 {
                    self.fail(streams, ERROR_FRAME_SIZE);
                    return;
                }
                if !flag_set(h.flags, 1) {
                    let payload = {
                        let s = streams.get(0);
                        match position {
                            Position::Server => s.front.data_bytes(),
                            Position::Client => s.back.data_bytes(),
                        }
                    };
                    let mut pong = gen_frame_header(
                        &FrameHeader {
                            payload_len: 8,
                            frame_type: FrameType::Ping,
                            flags: 1,
                            stream_id: 0,
                        },
                    );
                    let mut echo = payload;
                    pong.append(&mut echo);
                    if !self.emit_control(streams, &pong) {
                        self.state = H2State::Error;
                        self.expect = None;
                    }
                }
            }
            FrameType::GoAway => {
                if h.stream_id != 0 {
                    // GOAWAY is connection-scoped
                    self.fail(streams, ERROR_PROTOCOL);
                    return;
                }
                if h.payload_len < 8 {
                    self.fail(streams, ERROR_FRAME_SIZE);
                } else {
                    self.goaway = true;
                }
            }
            FrameType::WindowUpdate => {
                self.handle_window_update(h, streams);
            }
        }
    }

    /// Handle one WINDOW_UPDATE frame: raise the window of the stream the
    /// wire-to-global map resolves (stream 0 raising the connection
    /// window), fail the connection when the sum would pass 2^31 - 1, and
    /// ignore an update for a stream that is gone.
    fn handle_window_update(&mut self, h: FrameHeader, streams: &mut Streams)
        requires
            old(self).wf_map(old(streams).streams@.len() as int),
            old(self).expect is None,
            old(self).state == H2State::Header,
            old(streams).wf(),
            h.wf(),
            h.frame_type == FrameType::WindowUpdate,
        ensures
            final(self).wf_map(final(streams).streams@.len() as int),
            final(self).expect is None,
            final(self).state == H2State::Header || final(self).state == H2State::Error,
            final(self).wf_frame(),
            final(self).wf_expect(*final(streams)),
            final(streams).wf(),
            final(streams).streams@.len() >= old(streams).streams@.len(),
            final(self).position == old(self).position,
            h.stream_id == 0 && h.payload_len == 4 && msg_data(
                spec_local(old(streams).streams@[0], old(self).position),
            ).len() == 4 ==> {
                &&& (old(streams).streams@[0].window + crate::codec::spec_u32_at(
                    msg_data(spec_local(old(streams).streams@[0], old(self).position)),
                    0,
                ) % 0x80000000 > 0x7fffffff <==> final(self).state == H2State::Error)
                &&& (final(self).state == H2State::Header ==> final(streams).streams@[0].window
                    == old(streams).streams@[0].window + crate::codec::spec_u32_at(
                    msg_data(spec_local(old(streams).streams@[0], old(self).position)),
                    0,
                ) % 0x80000000)
            },
            h.stream_id != 0 && h.payload_len == 4 ==> match spec_lookup(
                old(self).streams@,
                h.stream_id,
            ) {
                Some(g) => 4 <= msg_data(
                    spec_local(old(streams).streams@[g as int], old(self).position),
                ).len() ==> {
                    &&& (old(streams).streams@[g as int].window + spec_wu_increment(
                        msg_data(spec_local(old(streams).streams@[g as int], old(self).position)),
                    ) > 0x7fffffff <==> final(self).state == H2State::Error)
                    &&& (final(self).state == H2State::Header ==> final(streams).streams@[g as int].window == old(streams).streams@[g as int].window
                        + spec_wu_increment(
                        msg_data(spec_local(old(streams).streams@[g as int], old(self).position)),
                    ) && forall|j: int|
                        0 <= j < old(streams).streams@.len() && j != g ==> final(streams).streams@[j].window == old(streams).streams@[j].window)
                },
                None => final(self).state == H2State::Header && *final(streams) == *old(streams),
            },
    {
        let position = self.position;

                if h.payload_len != 4 {
                    self.fail(streams, ERROR_FRAME_SIZE);
                    return;
                }
                let g: usize = if h.stream_id == 0 {
                    0
                } else {
                    match self.find_stream(h.stream_id) {
                        Some(g) => {
                            proof {
                                let i = choose|i: int|
                                    0 <= i < self.streams@.len() && (
                                    #[trigger] self.streams@[i]) == (h.stream_id, g);
                                assert((self.streams@[i]).1 < streams.streams@.len() as int);
                            }
                            g
                        }
                        None => {
                            // the stream is gone: the update is moot
                            return;
                        }
                    }
                };
                let payload = match self.payload_tail(streams, g, 4) {
                    Some(p) => p,
                    None => {
                        self.fail(streams, ERROR_FRAME_SIZE);
                        return;
                    }
                };
                match parse_window_update(payload.as_slice()) {
                    Some(increment) => {
                        let w: i32 = streams.get(g).window;
                        let nw: i64 = (w as i64) + (increment as i64);
                        if nw > 2147483647i64 {
                            // the window may not exceed 2^31 - 1
                            self.fail(streams, ERROR_FLOW_CONTROL);
                        } else {
                            {
                                let stream = streams.get_mut(g);
                                stream.window = nw as i32;
                            }
                            // returned credit resumes paused reads
                            if nw > 0i64 {
                                self.readiness.interest.insert_readable();
                            }
                        }
                    }
                    None => {
                        self.fail(streams, ERROR_FRAME_SIZE);
                    }
                }
            }}

impl<Front: SocketHandler> ConnectionH2<Front> {
    /// Drain the session-scoped peer buffer to the socket. Returns whether
    /// it is now empty; zero progress clears the writable event but keeps
    /// interest.
    fn flush_session(&mut self, streams: &mut Streams) -> (r: bool)
        requires
            old(self).wf(*old(streams)),
            old(streams).wf(),
        ensures
            final(self).wf(*final(streams)),
            final(streams).wf(),
            final(streams).streams@.len() == old(streams).streams@.len(),
            final(self).position == old(self).position,
            final(self).state == old(self).state,
            final(self).expect == old(self).expect,
            final(self).settings == old(self).settings,
            final(self).streams@ == old(self).streams@,
            r == (crate::msg::msg_data(
                spec_peer(final(streams).streams@[0], old(self).position),
            ).len() == 0),
            exists|k: int|
                0 <= k <= msg_data(spec_peer(old(streams).streams@[0], old(self).position)).len()
                    && msg_data(spec_peer(final(streams).streams@[0], old(self).position))
                    == msg_data(spec_peer(old(streams).streams@[0], old(self).position)).skip(k),
            msg_data(spec_peer(final(streams).streams@[0], old(self).position)) == msg_data(
                spec_peer(old(streams).streams@[0], old(self).position),
            ) && msg_data(spec_peer(old(streams).streams@[0], old(self).position)).len() > 0
                ==> !final(self).readiness.event.writable,
    {
        let position = self.position;
        let data = {
            let s = streams.get(0);
            match position {
                Position::Server => s.back.data_bytes(),
                Position::Client => s.front.data_bytes(),
            }
        };
        proof {
            assert(msg_data(spec_peer(streams.streams@[0], position)) == msg_data(
                spec_peer(streams.streams@[0], position),
            ).skip(0));
        }
        if data.len() == 0 {
            return true;
        }
        let (n, status) = self.socket.socket_write(&data);
        if n > 0 {
            let stream = streams.get_mut(0);
            stream.back(position).storage_consume(n);
        } else {
            self.readiness.event.remove_writable();
        }
        match status {
            SocketResult::Closed => self.readiness.event.insert_hup(),
            SocketResult::Error => self.readiness.event.insert_error(),
            _ => {}
        }
        let stream = streams.get_mut(0);
        let empty = stream.back(position).available_data() == 0;
        empty
    }

    /// The writable path. A server flushes its SETTINGS and ACK, then swaps
    /// interests and starts reading frame headers; a client first sends the
    /// preface with its SETTINGS; afterwards both only drain queued control
    /// frames.
    pub fn writable(&mut self, streams: &mut Streams)
        requires
            old(self).wf(*old(streams)),
            old(streams).wf(),
        ensures
            final(self).wf(*final(streams)),
            final(streams).wf(),
            final(streams).streams@.len() >= old(streams).streams@.len(),
            final(self).position == old(self).position,
            old(self).state == H2State::ServerSettings && old(self).position == Position::Server
                ==> {
                &&& (final(self).state == H2State::Header || final(self).state
                    == H2State::ServerSettings)
                &&& (final(self).state == H2State::Header ==> final(self).expect == Some(
                    (0usize, 9usize),
                ) && final(self).readiness.interest.readable && !final(self).readiness.interest.writable && msg_data(
                    spec_peer(final(streams).streams@[0], Position::Server),
                ).len() == 0)
            },
    {
        let position = self.position;
        let st = self.state;
        match (st, position) {
            (H2State::ClientPreface, Position::Client) => {
                // queue the preface and an empty SETTINGS once, then drain
                let queued = {
                    let stream = streams.get_mut(0);
                    stream.back(position).available_data() > 0
                };
                if !queued {
                    let mut bytes = preface_bytes();
                    let mut sf = gen_frame_header(
                        &FrameHeader {
                            payload_len: 0,
                            frame_type: FrameType::Settings,
                            flags: 0,
                            stream_id: 0,
                        },
                    );
                    bytes.append(&mut sf);
                    if !self.emit_control(streams, &bytes) {
                        self.state = H2State::Error;
                        self.expect = None;
                        return;
                    }
                }
                if self.flush_session(streams) {
                    self.readiness.interest.remove_writable();
                    self.readiness.interest.insert_readable();
                    self.state = H2State::ServerSettings;
                    self.set_expect(streams, 0, 9);
                }
            }
            (H2State::ServerSettings, Position::Server) => {
                if self.flush_session(streams) {
                    self.readiness.interest.remove_writable();
                    self.readiness.interest.insert_readable();
                    self.state = H2State::Header;
                    self.set_expect(streams, 0, 9);
                }
            }
            (H2State::Header, _) | (H2State::Frame(_), _) | (H2State::Error, _) => {
                // drain queued control frames: ACKs, PING replies,
                // RST_STREAM, GOAWAY
                if self.flush_session(streams) {
                    self.readiness.interest.remove_writable();
                }
            }
            _ => {
                self.readiness.event.remove_writable();
            }
        }
    }
}

/// The canonical opening of a server-position H2 connection: exactly the
/// 24-byte preface followed by the 9-octet header of a SETTINGS frame with
/// zero flags on stream 0.
pub open spec fn spec_preface_frame(data: Seq<u8>) -> Option<FrameHeader> {
    if data.len() == 33 && spec_starts_with_preface(data) {
        match spec_parse_frame_header(data.subrange(24, 33)) {
            Some(h) => {
                if h.frame_type == FrameType::Settings && h.flags == 0 && h.stream_id == 0 {
                    Some(h)
                } else {
                    None
                }
            }
            None => None,
        }
    } else {
        None
    }
}

/// Validate the 33 opening bytes of a server-position connection. Succeeds
/// exactly on the canonical preface followed by a well-formed SETTINGS
/// header with zero flags on stream 0, and yields that header.
pub fn process_client_preface(data: &Vec<u8>) -> (r: Option<FrameHeader>)
    ensures
        r == spec_preface_frame(data@),
        r matches Some(h) ==> h.wf(),
{
    if data.len() != 33 {
        return None;
    }
    if !crate::codec::starts_with_preface(data.as_slice()) {
        return None;
    }
    let rest = crate::codec::subvec(data, 24, 33);
    proof {
        assert(rest@.subrange(0, 9) =~= data@.subrange(24, 33));
    }
    match parse_frame_header(rest.as_slice()) {
        Some(h) => {
            if h.frame_type == FrameType::Settings && h.flags == 0 && h.stream_id == 0 {
                Some(h)
            } else {
                None
            }
        }
        None => None,
    }
}

/// Any opening whose first 24 bytes differ from the canonical preface is
/// rejected: the connection must close with a protocol error.
pub proof fn lemma_preface_strict(data: Seq<u8>)
    requires
        !(data.len() >= 24 && data.subrange(0, 24) =~= crate::codec::spec_preface()),
    ensures
        spec_preface_frame(data) is None,
{
}

} // verus!
