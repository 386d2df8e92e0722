//! The socket capability: non-blocking reads and writes returning how many
//! bytes moved and a transport status. The engines are generic over it; an
//! in-memory implementation backs the tests, and a host runtime can provide
//! one over a real TCP stream.

use vstd::prelude::*;

verus! {

/// Outcome of one non-blocking socket operation.
#[derive(Debug, Clone, Copy, PartialEq, Eq, Structural)]
pub enum SocketResult {
    Continue,
    WouldBlock,
    Closed,
    Error,
}

/// A non-blocking byte transport. A read yields at most `max` fresh bytes; a
/// write accepts a prefix of the given bytes. Neither call suspends.
pub trait SocketHandler: Sized {
    /// Read at most `max` bytes. The returned bytes are whatever the peer
    /// sent: nothing more is promised of them.
    fn socket_read(&mut self, max: usize) -> (r: (Vec<u8>, SocketResult))
        ensures
            r.0@.len() <= max,
    ;

    /// Write a prefix of `data`, returning how many bytes were accepted.
    fn socket_write(&mut self, data: &Vec<u8>) -> (r: (usize, SocketResult))
        ensures
            r.0 <= data@.len(),
    ;
}

/// An in-memory socket: reads consume a scripted input, writes append to an
/// output. Used to drive sessions deterministically.
pub struct MemSocket {
    pub input: Vec<u8>,
    pub read_pos: usize,
    pub output: Vec<u8>,
}

impl MemSocket {
    /// A socket that will serve `input` to reads.
    pub fn new(input: Vec<u8>) -> (r: MemSocket)
        ensures
            r.input@ == input@,
            r.read_pos == 0,
            r.output@.len() == 0,
    {
        MemSocket { input, read_pos: 0, output: Vec::new() }
    }

}

impl SocketHandler for MemSocket {
    fn socket_read(&mut self, max: usize) -> (r: (Vec<u8>, SocketResult))
        ensures
            r.0@.len() <= max,
    {
        let mut out: Vec<u8> = Vec::new();
        if self.read_pos >= self.input.len() {
            return (out, SocketResult::WouldBlock);
        }
        let mut i: usize = 0;
        while i < max && self.read_pos < self.input.len()
            invariant
                out@.len() == i,
                i <= max,
                self.read_pos <= self.input@.len(),
            decreases max - i,
        {
            out.push(self.input[self.read_pos]);
            self.read_pos += 1;
            i += 1;
        }
        (out, SocketResult::Continue)
    }

    fn socket_write(&mut self, data: &Vec<u8>) -> (r: (usize, SocketResult))
        ensures
            r.0 <= data@.len(),
    {
        let mut i: usize = 0;
        while i < data.len()
            invariant
                i <= data@.len(),
            decreases data@.len() - i,
        {
            self.output.push(data[i]);
            i += 1;
        }
        (i, SocketResult::Continue)
    }
}

} // verus!
