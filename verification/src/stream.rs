//! Streams and the stream table. A stream is one logical request/response
//! exchange: an identifier, a flow-control window, and two message buffers
//! rented from a capacity-limited pool. The table owns all streams of a
//! session, addressed by a dense global index; index 0 always exists and is
//! the session-scoped buffer.

use vstd::prelude::*;
use crate::msg::{msg_data, msg_space, HttpMsg};
use crate::Position;

verus! {

/// Stream creation failed because the buffer pool could not provide both
/// regions.
#[derive(Debug, Clone, Copy, PartialEq, Eq, Structural)]
pub enum AcceptError {
    BufferCapacityReached,
}

/// The buffer pool capability: a bounded issuer of fixed-size regions. The
/// session holds it weakly; when the pool is gone, checkouts fail.
#[derive(Debug, Clone, Copy, PartialEq, Eq, Structural)]
pub struct Pool {
    /// Regions still available for checkout.
    pub available: usize,
    /// Regions the pool was created with.
    pub capacity: usize,
    /// Bytes per region.
    pub region_size: usize,
    /// Whether the pool is still alive; a dead pool refuses every checkout.
    pub alive: bool,
}

impl Pool {
    pub open spec fn wf(self) -> bool {
        self.available <= self.capacity
    }

    /// A live pool with `capacity` regions of `region_size` bytes each.
    pub fn new(capacity: usize, region_size: usize) -> (r: Pool)
        ensures
            r == (Pool { available: capacity, capacity, region_size, alive: true }),
            r.wf(),
    {
        Pool { available: capacity, capacity, region_size, alive: true }
    }

    /// Check one region out. Fails exactly when the pool is dead or empty.
    pub fn checkout(&mut self) -> (r: bool)
        requires
            old(self).wf(),
        ensures
            final(self).wf(),
            r <==> old(self).alive && old(self).available > 0,
            r ==> *final(self) == (Pool { available: (old(self).available - 1) as usize, ..*old(self) }),
            !r ==> *final(self) == *old(self),
    {
        if self.alive && self.available > 0 {
            self.available = self.available - 1;
            true
        } else {
            false
        }
    }

    /// Return `n` regions to the pool.
    pub fn put_back(&mut self, n: usize)
        requires
            old(self).wf(),
            old(self).available + n <= old(self).capacity,
        ensures
            final(self).wf(),
            *final(self) == (Pool { available: (old(self).available + n) as usize, ..*old(self) }),
    {
        self.available = self.available + n;
    }
}

/// One logical exchange: identifier, flow-control window, request buffer
/// (`front`) and response buffer (`back`).
pub struct Stream {
    /// Unique 128-bit identifier, assigned at creation.
    pub request_id: u128,
    /// Signed flow-control credit; at global index 0 it is the connection
    /// window.
    pub window: i32,
    /// The request message.
    pub front: HttpMsg,
    /// The response message.
    pub back: HttpMsg,
}

/// The local buffer of a stream for a position: the read target. A server
/// reads into the request, a client into the response.
pub open spec fn spec_local(s: Stream, p: Position) -> HttpMsg {
    match p {
        Position::Server => s.front,
        Position::Client => s.back,
    }
}

/// The peer buffer of a stream for a position: the write source. A server
/// writes the response, a client the request.
pub open spec fn spec_peer(s: Stream, p: Position) -> HttpMsg {
    match p {
        Position::Server => s.back,
        Position::Client => s.front,
    }
}

impl Stream {
    /// The local buffer for a position: the one that position reads into. A
    /// server reads requests, a client reads responses.
    pub fn front(&mut self, position: Position) -> (r: &mut HttpMsg)
        ensures
            position is Server ==> *r == old(self).front && *final(self) == (Stream {
                front: *final(r),
                ..*old(self)
            }),
            position is Client ==> *r == old(self).back && *final(self) == (Stream {
                back: *final(r),
                ..*old(self)
            }),
    {
        match position {
            Position::Client => &mut self.back,
            Position::Server => &mut self.front,
        }
    }

    /// The peer buffer for a position: the one that position writes from. A
    /// server writes responses, a client writes requests.
    pub fn back(&mut self, position: Position) -> (r: &mut HttpMsg)
        ensures
            position is Server ==> *r == old(self).back && *final(self) == (Stream {
                back: *final(r),
                ..*old(self)
            }),
            position is Client ==> *r == old(self).front && *final(self) == (Stream {
                front: *final(r),
                ..*old(self)
            }),
    {
        match position {
            Position::Client => &mut self.front,
            Position::Server => &mut self.back,
        }
    }
}

/// The stream table: all streams of one session, append-only so global
/// indices stay valid, plus the pool they rent from.
pub struct Streams {
    pub streams: Vec<Stream>,
    pub pool: Pool,
}

impl Streams {
    /// Well-formed: the pool accounting is sound (while the pool lives,
    /// every stream's two regions are covered by its capacity) and the
    /// session-scoped stream at index 0 exists.
    pub open spec fn wf(self) -> bool {
        &&& self.pool.wf()
        &&& self.streams@.len() >= 1
        &&& (self.pool.alive ==> self.pool.available + 2 * self.streams@.len()
            <= self.pool.capacity)
    }

    /// A table over `pool` whose index 0 (the session-scoped stream) is
    /// already rented. Fails exactly when the pool cannot provide two
    /// regions.
    pub fn new(pool: Pool, request_id: u128) -> (r: Result<Streams, AcceptError>)
        requires
            pool.wf(),
        ensures
            r matches Ok(s) ==> s.wf() && s.streams@.len() == 1 && s.pool.available
                == pool.available - 2,
            r is Ok <==> pool.alive && pool.available >= 2,
    {
        let mut table = Streams { streams: Vec::new(), pool };
        let region_size = pool.region_size;
        if !table.pool.checkout() {
            return Err(AcceptError::BufferCapacityReached);
        }
        if !table.pool.checkout() {
            // roll the first region back: rent both or neither
            table.pool.put_back(1);
            return Err(AcceptError::BufferCapacityReached);
        }
        table.streams.push(
            Stream {
                request_id,
                window: 0,
                front: HttpMsg::new(true, region_size),
                back: HttpMsg::new(false, region_size),
            },
        );
        Ok(table)
    }

    /// How many streams exist.
    pub fn len(&self) -> (r: usize)
        ensures
            r == self.streams@.len(),
    {
        self.streams.len()
    }

    /// Append a new stream. Acquires two pool regions; if either is
    /// unavailable, neither is retained and the table is unchanged. On
    /// success the new stream's index is returned; indices are stable for
    /// the session's lifetime.
    pub fn create_stream(&mut self, request_id: u128, window: u32) -> (r: Result<
        usize,
        AcceptError,
    >)
        requires
            old(self).wf(),
            window < 0x80000000,
        ensures
            final(self).wf(),
            r matches Ok(i) ==> {
                &&& i == old(self).streams@.len()
                &&& final(self).streams@.len() == old(self).streams@.len() + 1
                &&& final(self).pool == (Pool {
                    available: (old(self).pool.available - 2) as usize,
                    ..old(self).pool
                })
                &&& final(self).streams@[i as int].request_id == request_id
                &&& final(self).streams@[i as int].window == window as i32
                &&& msg_data(final(self).streams@[i as int].front) == Seq::<u8>::empty()
                &&& msg_data(final(self).streams@[i as int].back) == Seq::<u8>::empty()
                &&& msg_space(final(self).streams@[i as int].front) == old(self).pool.region_size
                &&& msg_space(final(self).streams@[i as int].back) == old(self).pool.region_size
            },
            r is Ok <==> old(self).pool.alive && old(self).pool.available >= 2,
            r is Err ==> *final(self) == *old(self),
            forall|j: int|
                0 <= j < old(self).streams@.len() ==> final(self).streams@[j]
                    == old(self).streams@[j],
    {
        let region_size = self.pool.region_size;
        if !self.pool.checkout() {
            return Err(AcceptError::BufferCapacityReached);
        }
        if !self.pool.checkout() {
            // roll the first region back: rent both or neither
            self.pool.put_back(1);
            return Err(AcceptError::BufferCapacityReached);
        }
        let i = self.streams.len();
        self.streams.push(
            Stream {
                request_id,
                window: window as i32,
                front: HttpMsg::new(true, region_size),
                back: HttpMsg::new(false, region_size),
            },
        );
        Ok(i)
    }

    /// Borrow the stream at `i`; the index must be in range.
    pub fn get(&self, i: usize) -> (r: &Stream)
        requires
            i < self.streams@.len(),
        ensures
            *r == self.streams@[i as int],
    {
        &self.streams[i]
    }

    /// Mutably borrow the stream at `i`; the index must be in range.
    pub fn get_mut(&mut self, i: usize) -> (r: &mut Stream)
        requires
            i < old(self).streams@.len(),
        ensures
            *r == old(self).streams@[i as int],
            final(self).pool == old(self).pool,
            final(self).streams@ == old(self).streams@.update(i as int, *final(r)),
    {
        &mut self.streams[i]
    }
}

} // verus!
