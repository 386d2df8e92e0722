use mux::connection::Connection;
use mux::mux::{Backend, Mux, SessionResult, Token};
use mux::ready::Ready;
use mux::socket::{MemSocket, SocketHandler, SocketResult};
use mux::stream::{Pool, Streams};
use mux::mux::StateResult;

fn all_events() -> Ready {
    Ready { readable: true, writable: true, error: false, hup: false }
}

/// A malformed peer: after a valid handshake it stays readable forever,
/// dripping one byte of an endless run of PRIORITY frames per call and
/// never quiescing.
struct BusySocket {
    prelude: Vec<u8>,
    cycle: Vec<u8>,
    pos: usize,
}

impl BusySocket {
    fn new() -> BusySocket {
        let mut prelude = mux::codec::preface_bytes();
        prelude.extend_from_slice(&[0, 0, 0, 4, 0, 0, 0, 0, 0]);
        // a PRIORITY frame for stream 1, over and over
        let cycle = vec![0, 0, 5, 2, 0, 0, 0, 0, 1, 0, 0, 0, 0, 16];
        BusySocket { prelude, cycle, pos: 0 }
    }
}

impl SocketHandler for BusySocket {
    fn socket_read(&mut self, max: usize) -> (Vec<u8>, SocketResult) {
        if max == 0 {
            return (Vec::new(), SocketResult::Continue);
        }
        let byte = if self.pos < self.prelude.len() {
            self.prelude[self.pos]
        } else {
            self.cycle[(self.pos - self.prelude.len()) % self.cycle.len()]
        };
        self.pos += 1;
        (vec![byte], SocketResult::Continue)
    }

    fn socket_write(&mut self, data: &Vec<u8>) -> (usize, SocketResult) {
        (data.len(), SocketResult::Continue)
    }
}

#[test]
fn loop_cap_closes_and_counts_once() {
    let pool = Pool::new(8, 16384);
    let table = Streams::new(pool, 1).unwrap();
    let frontend = Connection::new_h1_server(MemSocket::new(Vec::new()));
    // a backend that drips bytes forever: every pass does work
    let backend = Backend {
        token: Token(2),
        connection: Connection::new_h2_server(BusySocket::new()),
    };
    let mut mux = Mux {
        frontend_token: Token(1),
        frontend,
        backends: vec![backend],
        streams: table,
        sticky_name: String::new(),
        loop_errors: 0,
    };
    mux.update_readiness(Token(2), all_events());
    let r = mux.ready();
    assert_eq!(r, SessionResult::Close);
    assert_eq!(mux.loop_errors, 1);
}

#[test]
fn h1_terminated_clears_readable_interest() {
    let pool = Pool::new(8, 16384);
    let table = Streams::new(pool, 1).unwrap();
    let request = b"GET /index.html HTTP/1.1\r\nHost: example.com\r\n\r\n".to_vec();
    let frontend = Connection::new_h1_server(MemSocket::new(request));
    let mut mux: Mux<MemSocket, MemSocket> = Mux {
        frontend_token: Token(1),
        frontend,
        backends: Vec::new(),
        streams: table,
        sticky_name: String::new(),
        loop_errors: 0,
    };
    mux.update_readiness(Token(1), all_events());
    assert_eq!(mux.ready(), SessionResult::Continue);
    match &mux.frontend {
        Connection::H1(c) => assert!(!c.readiness.interest.readable),
        Connection::H2(_) => unreachable!(),
    }
    // a later readable event on that bit causes no further parsing
    let consumed = mux.front_socket().read_pos;
    mux.update_readiness(Token(1), all_events());
    assert_eq!(mux.ready(), SessionResult::Continue);
    assert_eq!(mux.front_socket().read_pos, consumed);
}

#[test]
fn h1_round_trip_through_the_mux() {
    let pool = Pool::new(8, 16384);
    let table = Streams::new(pool, 1).unwrap();
    let request = b"GET /page HTTP/1.1\r\nHost: example.com\r\nUser-Agent: check\r\n\r\n";
    let response = b"HTTP/1.1 200 OK\r\nContent-Length: 2\r\n\r\nhi";
    let frontend = Connection::new_h1_server(MemSocket::new(request.to_vec()));
    let backend_conn = Connection::new_h1_client(MemSocket::new(response.to_vec()));
    let mut mux = Mux {
        frontend_token: Token(1),
        frontend,
        backends: vec![Backend { token: Token(2), connection: backend_conn }],
        streams: table,
        sticky_name: String::new(),
        loop_errors: 0,
    };
    // the frontend also writes the response; the backend also reads it
    match &mut mux.frontend {
        Connection::H1(c) => c.readiness.interest.writable = true,
        Connection::H2(_) => unreachable!(),
    }
    match &mut mux.backends[0].connection {
        Connection::H1(c) => c.readiness.interest.readable = true,
        Connection::H2(_) => unreachable!(),
    }
    mux.update_readiness(Token(1), all_events());
    mux.update_readiness(Token(2), all_events());
    assert_eq!(mux.ready(), SessionResult::Continue);
    // the backend received the request bytes, canonically serialized
    match &mux.backends[0].connection {
        Connection::H1(c) => {
            let sent = String::from_utf8(c.socket.output.clone()).unwrap();
            assert_eq!(
                sent,
                "GET /page HTTP/1.1\r\nHost: example.com\r\nUser-Agent: check\r\n\r\n"
            );
        }
        Connection::H2(_) => unreachable!(),
    }
    // the frontend received the response bytes, canonically serialized
    let got = String::from_utf8(mux.front_socket().output.clone()).unwrap();
    assert_eq!(got, "HTTP/1.1 200 OK\r\nContent-Length: 2\r\n\r\nhi");
}

#[test]
fn backend_hup_closes_session() {
    let pool = Pool::new(8, 16384);
    let table = Streams::new(pool, 1).unwrap();
    let frontend = Connection::new_h1_server(MemSocket::new(Vec::new()));
    let backend = Backend {
        token: Token(2),
        connection: Connection::new_h1_client(MemSocket::new(Vec::new())),
    };
    let mut mux = Mux {
        frontend_token: Token(1),
        frontend,
        backends: vec![backend],
        streams: table,
        sticky_name: String::new(),
        loop_errors: 0,
    };
    mux.update_readiness(
        Token(2),
        Ready { readable: false, writable: false, error: false, hup: true },
    );
    assert_eq!(mux.ready(), SessionResult::Close);
    assert_eq!(mux.loop_errors, 0);
}

#[test]
fn unknown_token_is_ignored() {
    let pool = Pool::new(8, 16384);
    let table = Streams::new(pool, 1).unwrap();
    let frontend = Connection::new_h1_server(MemSocket::new(Vec::new()));
    let mut mux: Mux<MemSocket, MemSocket> = Mux {
        frontend_token: Token(1),
        frontend,
        backends: Vec::new(),
        streams: table,
        sticky_name: String::new(),
        loop_errors: 0,
    };
    mux.update_readiness(Token(77), all_events());
    match &mux.frontend {
        Connection::H1(c) => {
            assert_eq!(
                c.readiness.event,
                Ready { readable: false, writable: false, error: false, hup: false }
            );
        }
        Connection::H2(_) => unreachable!(),
    }
}

#[test]
fn timeout_and_close_release_resources() {
    let pool = Pool::new(8, 16384);
    let table = Streams::new(pool, 1).unwrap();
    let frontend = Connection::new_h1_server(MemSocket::new(Vec::new()));
    let mut mux: Mux<MemSocket, MemSocket> = Mux {
        frontend_token: Token(1),
        frontend,
        backends: Vec::new(),
        streams: table,
        sticky_name: String::new(),
        loop_errors: 0,
    };
    assert_eq!(mux.timeout(Token(1)), StateResult::CloseSession);
    assert_eq!(mux.streams.pool.available, 6);
    mux.close();
    // stream 0's two regions return to the pool only at session close
    assert_eq!(mux.streams.pool.available, 8);
    let described = mux.print_state("closing");
    assert!(described.contains("closing"));
}

#[test]
fn checked_construction() {
    let pool = Pool::new(8, 16384);
    let table = Streams::new(pool, 1).unwrap();
    let frontend = Connection::new_h2_server(MemSocket::new(Vec::new()));
    let mut mux: Mux<MemSocket, MemSocket> =
        match Mux::new(Token(1), frontend, table, String::new()) {
            Ok(m) => m,
            Err(_) => panic!("a fresh session must assemble"),
        };
    assert!(mux
        .add_backend(Token(2), Connection::new_h1_client(MemSocket::new(Vec::new())))
        .is_ok());
    // an H1 connection bound to a stream beyond the table is rejected
    let mut bad = Connection::new_h1_client(MemSocket::new(Vec::new()));
    match &mut bad {
        Connection::H1(c) => c.stream = 5,
        Connection::H2(_) => unreachable!(),
    }
    assert!(mux.add_backend(Token(3), bad).is_err());
    assert_eq!(mux.backends.len(), 1);
}
