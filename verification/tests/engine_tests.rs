use mux::codec::preface_bytes;
use mux::connection::Connection;
use mux::h2::{process_client_preface, H2State};
use mux::msg::HttpMsg;
use mux::mux::{Backend, Mux, SessionResult, Token};
use mux::ready::Ready;
use mux::socket::MemSocket;
use mux::stream::{Pool, Streams};
use mux::ready::Readiness;
use mux::headers::block_safe;

fn all_events() -> Ready {
    Ready { readable: true, writable: true, error: false, hup: false }
}

fn h2_server_mux(input: Vec<u8>, pool_regions: usize) -> Mux<MemSocket, MemSocket> {
    let pool = Pool::new(pool_regions, 16384);
    let table = Streams::new(pool, 1).unwrap();
    let frontend = Connection::new_h2_server(MemSocket::new(input));
    Mux {
        frontend_token: Token(1),
        frontend,
        backends: Vec::new(),
        streams: table,
        sticky_name: String::from("SOZUBALANCEID"),
        loop_errors: 0,
    }
}

fn frontend_h2(mux: &Mux<MemSocket, MemSocket>) -> &mux::h2::ConnectionH2<MemSocket> {
    match &mux.frontend {
        Connection::H2(c) => c,
        Connection::H1(_) => panic!("expected an H2 frontend"),
    }
}

#[test]
fn h2_server_handshake() {
    // the preface followed by an empty SETTINGS frame
    let mut input = preface_bytes();
    input.extend_from_slice(&[0, 0, 0, 4, 0, 0, 0, 0, 0]);
    let mut mux = h2_server_mux(input, 8);
    mux.update_readiness(Token(1), all_events());
    let r = mux.ready();
    assert_eq!(r, SessionResult::Continue);
    let c = frontend_h2(&mux);
    assert_eq!(c.state, H2State::Header);
    assert_eq!(c.expect, Some((0, 9)));
    // our SETTINGS and the SETTINGS-ACK went out
    let out = &mux.front_socket().output;
    assert_eq!(
        out,
        &vec![0, 0, 0, 4, 0, 0, 0, 0, 0, 0, 0, 0, 4, 1, 0, 0, 0, 0]
    );
}

#[test]
fn h2_preface_strictness_closes_with_protocol_error() {
    // first 24 bytes differ from the canonical preface
    let mut input = b"PRI * HTTP/1.1\r\n\r\nSM\r\n\r\n".to_vec();
    input.extend_from_slice(&[0, 0, 0, 4, 0, 0, 0, 0, 0]);
    let mut mux = h2_server_mux(input, 8);
    mux.update_readiness(Token(1), all_events());
    let r = mux.ready();
    assert_eq!(r, SessionResult::Close);
    assert_eq!(frontend_h2(&mux).state, H2State::Error);
    // the GOAWAY carries the PROTOCOL_ERROR code
    let out = &mux.front_socket().output;
    assert_eq!(
        out,
        &vec![0, 0, 8, 7, 0, 0, 0, 0, 0, 0, 0, 0, 0, 0, 0, 0, 1]
    );
}

#[test]
fn process_client_preface_exact() {
    let mut good = preface_bytes();
    good.extend_from_slice(&[0, 0, 12, 4, 0, 0, 0, 0, 0]);
    let h = process_client_preface(&good).unwrap();
    assert_eq!(h.payload_len, 12);
    // a corrupted preface byte is rejected
    let mut bad = good.clone();
    bad[3] = b'!';
    assert!(process_client_preface(&bad).is_none());
    // a first frame that is not SETTINGS is rejected
    let mut ping = preface_bytes();
    ping.extend_from_slice(&[0, 0, 8, 6, 0, 0, 0, 0, 0]);
    assert!(process_client_preface(&ping).is_none());
    // SETTINGS with flags or a stream id is rejected
    let mut flagged = preface_bytes();
    flagged.extend_from_slice(&[0, 0, 0, 4, 1, 0, 0, 0, 0]);
    assert!(process_client_preface(&flagged).is_none());
}

#[test]
fn pool_exhaustion_refuses_stream() {
    // the pool has exactly the two regions stream 0 needs
    let mut input = preface_bytes();
    input.extend_from_slice(&[0, 0, 0, 4, 0, 0, 0, 0, 0]);
    // HEADERS on the new wire stream 3, empty block, END_HEADERS
    input.extend_from_slice(&[0, 0, 0, 1, 4, 0, 0, 0, 3]);
    let mut mux = h2_server_mux(input, 2);
    mux.update_readiness(Token(1), all_events());
    let r = mux.ready();
    // the session stays open
    assert_eq!(r, SessionResult::Continue);
    let c = frontend_h2(&mux);
    assert_eq!(c.state, H2State::Header);
    // no stream was created and no mapping recorded
    assert_eq!(mux.streams.streams.len(), 1);
    assert_eq!(c.streams.len(), 1);
    // RST_STREAM for wire stream 3 with REFUSED_STREAM (7) went out
    let out = &mux.front_socket().output;
    let rst = &out[out.len() - 13..];
    assert_eq!(rst, &[0, 0, 4, 3, 0, 0, 0, 0, 3, 0, 0, 0, 7]);
}

#[test]
fn window_update_and_flow_control_error() {
    let mut input = preface_bytes();
    // client SETTINGS: initial window size 0
    input.extend_from_slice(&[0, 0, 6, 4, 0, 0, 0, 0, 0]);
    input.extend_from_slice(&[0, 4, 0, 0, 0, 0]);
    // HEADERS opens wire stream 1 (empty block, END_HEADERS)
    input.extend_from_slice(&[0, 0, 0, 1, 4, 0, 0, 0, 1]);
    // WINDOW_UPDATE(1, 65535)
    input.extend_from_slice(&[0, 0, 4, 8, 0, 0, 0, 0, 1]);
    input.extend_from_slice(&[0, 0, 0xff, 0xff]);
    let mut mux = h2_server_mux(input, 8);
    mux.update_readiness(Token(1), all_events());
    let r = mux.ready();
    assert_eq!(r, SessionResult::Continue);
    {
        let c = frontend_h2(&mux);
        assert!(c.streams.contains(&(1, 1)));
        assert_eq!(mux.streams.streams[1].window, 65535);
    }
    // a second update summing to 2^31 is a flow-control error
    let mut second = h2_server_mux(Vec::new(), 8);
    let mut input2 = preface_bytes();
    input2.extend_from_slice(&[0, 0, 6, 4, 0, 0, 0, 0, 0]);
    input2.extend_from_slice(&[0, 4, 0, 0, 0, 0]);
    input2.extend_from_slice(&[0, 0, 0, 1, 4, 0, 0, 0, 1]);
    input2.extend_from_slice(&[0, 0, 4, 8, 0, 0, 0, 0, 1]);
    input2.extend_from_slice(&[0, 0, 0xff, 0xff]);
    input2.extend_from_slice(&[0, 0, 4, 8, 0, 0, 0, 0, 1]);
    input2.extend_from_slice(&[0x7f, 0xff, 0x00, 0x01]);
    match &mut second.frontend {
        Connection::H2(c) => c.socket = MemSocket::new(input2),
        Connection::H1(_) => unreachable!(),
    }
    second.update_readiness(Token(1), all_events());
    let r2 = second.ready();
    assert_eq!(r2, SessionResult::Close);
    assert_eq!(frontend_h2(&second).state, H2State::Error);
    // the GOAWAY carries FLOW_CONTROL_ERROR (3)
    let out = &second.front_socket().output;
    let goaway = &out[out.len() - 17..];
    assert_eq!(goaway, &[0, 0, 8, 7, 0, 0, 0, 0, 0, 0, 0, 0, 0, 0, 0, 0, 3]);
}

#[test]
fn oversize_frame_is_a_connection_error() {
    let mut input = preface_bytes();
    input.extend_from_slice(&[0, 0, 0, 4, 0, 0, 0, 0, 0]);
    // a DATA frame announcing 16385 bytes exceeds the default maximum of 16384
    input.extend_from_slice(&[0, 0x40, 0x01, 0, 0, 0, 0, 0, 0]);
    let mut mux = h2_server_mux(input, 8);
    mux.update_readiness(Token(1), all_events());
    assert_eq!(mux.ready(), SessionResult::Close);
    assert_eq!(frontend_h2(&mux).state, H2State::Error);
    // the GOAWAY carries FRAME_SIZE_ERROR (6)
    let out = &mux.front_socket().output;
    let goaway = &out[out.len() - 17..];
    assert_eq!(goaway, &[0, 0, 8, 7, 0, 0, 0, 0, 0, 0, 0, 0, 0, 0, 0, 0, 6]);
}

#[test]
fn stream_index_zero_always_exists() {
    let mut input = preface_bytes();
    input.extend_from_slice(&[0, 0, 0, 4, 0, 0, 0, 0, 0]);
    input.extend_from_slice(&[0, 0, 0, 1, 4, 0, 0, 0, 1]);
    let mut mux = h2_server_mux(input, 8);
    assert!(mux.streams.streams.len() >= 1);
    mux.update_readiness(Token(1), all_events());
    mux.ready();
    assert!(mux.streams.streams.len() >= 1);
    // every wire-map entry points to an existing stream
    let c = frontend_h2(&mux);
    for (_, global) in &c.streams {
        assert!(*global < mux.streams.streams.len());
    }
}

#[test]
fn ping_is_acknowledged() {
    let mut input = preface_bytes();
    input.extend_from_slice(&[0, 0, 0, 4, 0, 0, 0, 0, 0]);
    input.extend_from_slice(&[0, 0, 8, 6, 0, 0, 0, 0, 0]);
    input.extend_from_slice(&[1, 2, 3, 4, 5, 6, 7, 8]);
    let mut mux = h2_server_mux(input, 8);
    mux.update_readiness(Token(1), all_events());
    assert_eq!(mux.ready(), SessionResult::Continue);
    let out = &mux.front_socket().output;
    let pong = &out[out.len() - 17..];
    assert_eq!(pong, &[0, 0, 8, 6, 1, 0, 0, 0, 0, 1, 2, 3, 4, 5, 6, 7, 8]);
}

#[test]
fn settings_frame_is_acknowledged_each_time() {
    let mut input = preface_bytes();
    input.extend_from_slice(&[0, 0, 0, 4, 0, 0, 0, 0, 0]);
    // the same SETTINGS frame twice, mid-session
    input.extend_from_slice(&[0, 0, 6, 4, 0, 0, 0, 0, 0]);
    input.extend_from_slice(&[0, 1, 0, 0, 32, 0]);
    input.extend_from_slice(&[0, 0, 6, 4, 0, 0, 0, 0, 0]);
    input.extend_from_slice(&[0, 1, 0, 0, 32, 0]);
    let mut mux = h2_server_mux(input, 8);
    mux.update_readiness(Token(1), all_events());
    assert_eq!(mux.ready(), SessionResult::Continue);
    let c = frontend_h2(&mux);
    assert_eq!(c.settings.settings_header_table_size, 8192);
    // handshake SETTINGS + ACK, then one ACK per received SETTINGS
    let out = &mux.front_socket().output;
    assert_eq!(out.len(), 18 + 9 + 9);
    assert_eq!(&out[18..27], &[0, 0, 0, 4, 1, 0, 0, 0, 0]);
    assert_eq!(&out[27..36], &[0, 0, 0, 4, 1, 0, 0, 0, 0]);
}

#[test]
fn interleaving_an_unfinished_header_block_is_a_protocol_error() {
    let mut input = preface_bytes();
    input.extend_from_slice(&[0, 0, 0, 4, 0, 0, 0, 0, 0]);
    // HEADERS on stream 1 without END_HEADERS: a CONTINUATION must follow
    input.extend_from_slice(&[0, 0, 0, 1, 0, 0, 0, 0, 1]);
    // a PING instead
    input.extend_from_slice(&[0, 0, 8, 6, 0, 0, 0, 0, 0]);
    input.extend_from_slice(&[0; 8]);
    let mut mux = h2_server_mux(input, 8);
    mux.update_readiness(Token(1), all_events());
    assert_eq!(mux.ready(), SessionResult::Close);
    assert_eq!(frontend_h2(&mux).state, H2State::Error);
}

#[test]
fn rst_stream_drops_the_mapping() {
    let mut input = preface_bytes();
    input.extend_from_slice(&[0, 0, 0, 4, 0, 0, 0, 0, 0]);
    input.extend_from_slice(&[0, 0, 0, 1, 4, 0, 0, 0, 1]);
    input.extend_from_slice(&[0, 0, 4, 3, 0, 0, 0, 0, 1]);
    input.extend_from_slice(&[0, 0, 0, 8]);
    let mut mux = h2_server_mux(input, 8);
    mux.update_readiness(Token(1), all_events());
    assert_eq!(mux.ready(), SessionResult::Continue);
    let c = frontend_h2(&mux);
    assert_eq!(c.state, H2State::Header);
    assert!(!c.streams.iter().any(|e| e.0 == 1));
    // the session-scoped mapping stays
    assert!(c.streams.contains(&(0, 0)));
}

#[test]
fn stream_create_is_all_or_nothing() {
    let pool = Pool::new(3, 1024);
    let mut table = Streams::new(pool, 7).unwrap();
    assert_eq!(table.pool.available, 1);
    // one region left: creation must fail and retain neither
    let r = table.create_stream(8, 100);
    assert!(r.is_err());
    assert_eq!(table.pool.available, 1);
    assert_eq!(table.streams.len(), 1);
    // with two regions back, creation succeeds atomically
    table.pool.put_back(1);
    let i = table.create_stream(9, 100).unwrap();
    assert_eq!(i, 1);
    assert_eq!(table.pool.available, 0);
    assert_eq!(table.streams.len(), 2);
    assert_eq!(table.streams[1].request_id, 9);
    assert_eq!(table.streams[1].window, 100);
}

#[test]
fn dead_pool_refuses_checkout() {
    let mut pool = Pool::new(4, 1024);
    pool.alive = false;
    assert!(Streams::new(pool, 1).is_err());
}

#[test]
fn http_msg_buffer_operations() {
    let mut m = HttpMsg::new(true, 16);
    assert_eq!(m.available_space(), 16);
    assert_eq!(m.available_data(), 0);
    m.push_bytes(&vec![10, 20, 30]);
    assert_eq!(m.data_bytes(), vec![10, 20, 30]);
    assert_eq!(m.available_space(), 13);
    m.storage_consume(1);
    assert_eq!(m.data_bytes(), vec![20, 30]);
    m.storage_clear();
    assert_eq!(m.available_data(), 0);
    assert_eq!(m.available_space(), 16);
    assert!(!m.is_terminated());
}

#[test]
fn effective_readiness_is_within_interest() {
    let r = Readiness {
        interest: Ready { readable: true, writable: false, error: true, hup: true },
        event: Ready { readable: true, writable: true, error: false, hup: false },
    };
    let eff = r.filter_interest();
    assert!(eff.is_readable());
    // a writable event outside the interest mask is filtered out
    assert!(!eff.is_writable());
    assert!(!eff.is_error());
    assert!(!eff.is_hup());
}

#[test]
fn frontend_hup_closes_untouched() {
    let mut mux = h2_server_mux(preface_bytes(), 8);
    let backend = Backend {
        token: Token(2),
        connection: Connection::new_h1_client(MemSocket::new(Vec::new())),
    };
    mux.backends.push(backend);
    mux.update_readiness(
        Token(1),
        Ready { readable: true, writable: false, error: false, hup: true },
    );
    mux.update_readiness(Token(2), all_events());
    let r = mux.ready();
    assert_eq!(r, SessionResult::Close);
    // the backend was never driven: its event mask is exactly as delivered
    match &mux.backends[0].connection {
        Connection::H1(c) => {
            assert_eq!(c.readiness.event, all_events());
            assert_eq!(c.socket.output.len(), 0);
        }
        Connection::H2(_) => unreachable!(),
    }
    // and nothing was read from the frontend
    assert_eq!(mux.front_socket().read_pos, 0);
}

#[test]
fn decoded_headers_are_committed_to_the_stream() {
    let mut input = preface_bytes();
    input.extend_from_slice(&[0, 0, 0, 4, 0, 0, 0, 0, 0]);
    // HEADERS on stream 1: one indexed static entry, ":method: GET"
    input.extend_from_slice(&[0, 0, 1, 1, 4, 0, 0, 0, 1]);
    input.push(0x82);
    let mut mux = h2_server_mux(input, 8);
    mux.update_readiness(Token(1), all_events());
    assert_eq!(mux.ready(), SessionResult::Continue);
    let c = frontend_h2(&mux);
    assert!(c.streams.contains(&(1, 1)));
    // the decoded field stands in the stream's request message in wire form
    let committed = mux.streams.streams[1].front.data_bytes();
    assert_eq!(committed, b":method: GET\r\n".to_vec());
}

#[test]
fn undecodable_size_update_is_a_connection_error() {
    let mut input = preface_bytes();
    input.extend_from_slice(&[0, 0, 0, 4, 0, 0, 0, 0, 0]);
    // HEADERS whose block is a truncated dynamic-table size update: hpack
    // cannot reject it gracefully, so the scan must
    input.extend_from_slice(&[0, 0, 1, 1, 4, 0, 0, 0, 1]);
    input.push(0x3f);
    let mut mux = h2_server_mux(input, 8);
    mux.update_readiness(Token(1), all_events());
    assert_eq!(mux.ready(), SessionResult::Close);
    assert_eq!(frontend_h2(&mux).state, H2State::Error);
    // the GOAWAY carries COMPRESSION_ERROR (9)
    let out = &mux.front_socket().output;
    let goaway = &out[out.len() - 17..];
    assert_eq!(goaway, &[0, 0, 8, 7, 0, 0, 0, 0, 0, 0, 0, 0, 0, 0, 0, 0, 9]);
}

#[test]
fn block_safe_walks_like_the_decoder() {
    // plain indexed fields and a well-formed size update are safe
    assert!(block_safe(&vec![0x82, 0x84]));
    assert!(block_safe(&vec![0x3f, 0xe1, 0x01, 0x82]));
    // a size update whose integer never terminates is not
    assert!(!block_safe(&vec![0x3f]));
    assert!(!block_safe(&vec![0x3f, 0xff, 0xff, 0xff, 0xff]));
    // a malformed non-size-update makes the decoder stop: nothing beyond
    // it is reached, so the block is safe to hand over
    assert!(block_safe(&vec![0x40, 0x0a]));
    assert!(block_safe(&vec![0x40, 0x0a, 0x61, 0x3f]));
}

#[test]
fn data_on_stream_zero_is_a_protocol_error() {
    let mut input = preface_bytes();
    input.extend_from_slice(&[0, 0, 0, 4, 0, 0, 0, 0, 0]);
    // an empty DATA frame addressed to the connection scope
    input.extend_from_slice(&[0, 0, 0, 0, 0, 0, 0, 0, 0]);
    let mut mux = h2_server_mux(input, 8);
    mux.update_readiness(Token(1), all_events());
    assert_eq!(mux.ready(), SessionResult::Close);
    assert_eq!(frontend_h2(&mux).state, H2State::Error);
}

#[test]
fn oversized_initial_window_setting_is_a_flow_control_error() {
    let mut input = preface_bytes();
    // SETTINGS announcing an initial window of 2^31
    input.extend_from_slice(&[0, 0, 6, 4, 0, 0, 0, 0, 0]);
    input.extend_from_slice(&[0, 4, 0x80, 0, 0, 0]);
    let mut mux = h2_server_mux(input, 8);
    mux.update_readiness(Token(1), all_events());
    assert_eq!(mux.ready(), SessionResult::Close);
    assert_eq!(frontend_h2(&mux).state, H2State::Error);
    // the GOAWAY carries FLOW_CONTROL_ERROR (3)
    let out = &mux.front_socket().output;
    let goaway = &out[out.len() - 17..];
    assert_eq!(goaway, &[0, 0, 8, 7, 0, 0, 0, 0, 0, 0, 0, 0, 0, 0, 0, 0, 3]);
}
