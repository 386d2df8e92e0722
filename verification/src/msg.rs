//! A framed HTTP message buffer: one fixed-size byte region plus parsing
//! state (filled span, consumed span, parsed block list), held by the kawa
//! crate's representation. The engines see it through a small set of
//! operations whose effect on the byte content is stated exactly; what the
//! HTTP/1 parser and serializer make of the bytes is kawa's business and is
//! not modelled beyond the *terminated* flag and the prepared output bytes.

use vstd::prelude::*;

verus! {

/// A message buffer of kind *Request* or *Response*. The storage region is
/// allocated once at creation and lives as long as the process.
#[verifier::external_body]
pub struct HttpMsg {
    kawa: kawa::Kawa<kawa::SliceBuffer<'static>>,
}

/// The unconsumed bytes the buffer holds (filled and not yet consumed).
pub uninterp spec fn msg_data(m: HttpMsg) -> Seq<u8>;

/// How many more bytes the buffer can take before it is full.
pub uninterp spec fn msg_space(m: HttpMsg) -> nat;

/// Whether the HTTP/1 parser has reported the message complete.
pub uninterp spec fn msg_terminated(m: HttpMsg) -> bool;

/// The serialized output bytes prepared and not yet consumed.
pub uninterp spec fn msg_out(m: HttpMsg) -> Seq<u8>;

/// What the HTTP/1 serializer renders from the message's parsed blocks: a
/// function of the message value alone.
pub uninterp spec fn out_of(m: HttpMsg) -> Seq<u8>;

impl HttpMsg {
    /// Relies on kawa::Kawa::new and kawa::Buffer::new: a fresh buffer is
    /// empty, not terminated, with no prepared output, and `capacity` bytes
    /// of space.
    #[verifier::external_body]
    pub fn new(request: bool, capacity: usize) -> (r: HttpMsg)
        ensures
            msg_data(r) == Seq::<u8>::empty(),
            msg_space(r) == capacity,
            !msg_terminated(r),
            msg_out(r) == Seq::<u8>::empty(),
    {
        let kind = if request {
            kawa::Kind::Request
        } else {
            kawa::Kind::Response
        };
        let region: &'static mut [u8] = Box::leak(vec![0u8; capacity].into_boxed_slice());
        HttpMsg { kawa: kawa::Kawa::new(kind, kawa::Buffer::new(kawa::SliceBuffer(region))) }
    }

    /// Relies on kawa::Buffer::available_space.
    #[verifier::external_body]
    pub fn available_space(&self) -> (r: usize)
        ensures
            r == msg_space(*self),
    {
        self.kawa.storage.available_space()
    }

    /// Relies on kawa::Buffer::available_data.
    #[verifier::external_body]
    pub fn available_data(&self) -> (r: usize)
        ensures
            r == msg_data(*self).len(),
    {
        self.kawa.storage.available_data()
    }

    /// Relies on kawa::Buffer::data: the unconsumed bytes, copied out.
    #[verifier::external_body]
    pub fn data_bytes(&self) -> (r: Vec<u8>)
        ensures
            r@ == msg_data(*self),
    {
        self.kawa.storage.data().to_vec()
    }

    /// Relies on kawa::Buffer::space and kawa::Buffer::fill: the bytes are
    /// appended to the buffer content and the space shrinks by their count.
    /// Nothing is said of the prepared output: a store left pointing into
    /// the free region (prepared, then cleared) would be overwritten.
    #[verifier::external_body]
    pub fn push_bytes(&mut self, bytes: &Vec<u8>)
        requires
            bytes@.len() <= msg_space(*old(self)),
        ensures
            msg_data(*final(self)) == msg_data(*old(self)) + bytes@,
            msg_space(*final(self)) == msg_space(*old(self)) - bytes@.len(),
            msg_terminated(*final(self)) == msg_terminated(*old(self)),
    {
        let space = self.kawa.storage.space();
        space[..bytes.len()].copy_from_slice(bytes);
        self.kawa.storage.fill(bytes.len());
    }

    /// Relies on kawa::Buffer::consume: the first `n` unconsumed bytes are
    /// dropped; the free space at the end of the region is untouched.
    #[verifier::external_body]
    pub fn storage_consume(&mut self, n: usize)
        requires
            n <= msg_data(*old(self)).len(),
        ensures
            msg_data(*final(self)) == msg_data(*old(self)).skip(n as int),
            msg_space(*final(self)) == msg_space(*old(self)),
            msg_terminated(*final(self)) == msg_terminated(*old(self)),
            msg_out(*final(self)) == msg_out(*old(self)),
    {
        self.kawa.storage.consume(n);
    }

    /// Relies on kawa::Buffer::clear: the buffer content is dropped and the
    /// whole region, including any span consumed earlier, becomes free
    /// space again.
    #[verifier::external_body]
    pub fn storage_clear(&mut self)
        ensures
            msg_data(*final(self)) == Seq::<u8>::empty(),
            msg_space(*final(self)) >= msg_space(*old(self)) + msg_data(*old(self)).len(),
            msg_terminated(*final(self)) == msg_terminated(*old(self)),
            msg_out(*final(self)) == msg_out(*old(self)),
    {
        self.kawa.storage.clear();
    }

    /// Relies on kawa::h1::parse: the parser reads the unparsed span and
    /// records blocks and the parsing phase; it moves no stored byte and
    /// prepares no output. Whether the message becomes terminated depends on
    /// the bytes and is not stated. The parser refuses header blocks it did
    /// not record itself; no operation of this type inserts any, so every
    /// reachable value is in its domain.
    #[verifier::external_body]
    pub fn parse(&mut self)
        ensures
            msg_data(*final(self)) == msg_data(*old(self)),
            msg_space(*final(self)) == msg_space(*old(self)),
            msg_out(*final(self)) == msg_out(*old(self)),
    {
        kawa::h1::parse(&mut self.kawa, &mut kawa::h1::NoCallbacks);
    }

    /// Relies on kawa::Kawa::is_terminated.
    #[verifier::external_body]
    pub fn is_terminated(&self) -> (r: bool)
        ensures
            r == msg_terminated(*self),
    {
        self.kawa.is_terminated()
    }

    /// Relies on kawa::Kawa::prepare with the HTTP/1 block converter: the
    /// parsed blocks become prepared output in wire form, appended to
    /// whatever output was already pending; the converter reads the storage
    /// without moving a byte and leaves the parsing phase alone. Which bytes
    /// it renders is the serializer's business, named `out_of`.
    #[verifier::external_body]
    pub fn prepare(&mut self)
        ensures
            msg_out(*final(self)) == msg_out(*old(self)) + out_of(*old(self)),
            msg_data(*final(self)) == msg_data(*old(self)),
            msg_space(*final(self)) == msg_space(*old(self)),
            msg_terminated(*final(self)) == msg_terminated(*old(self)),
    {
        self.kawa.prepare(&mut kawa::h1::BlockConverter);
    }

    /// Relies on kawa's out queue and kawa::Store::data: the prepared
    /// output bytes up to the first delimiter, copied out in order. Stores
    /// without bytes are skipped rather than read: kawa::Store::data
    /// refuses the empty store (the serializer leaves one for an absent
    /// request authority), and a zero-length store contributes no byte
    /// either way.
    #[verifier::external_body]
    pub fn out_bytes(&self) -> (r: Vec<u8>)
        ensures
            r@ == msg_out(*self),
    {
        let buffer = self.kawa.storage.buffer();
        let mut v: Vec<u8> = Vec::new();
        for block in self.kawa.out.iter() {
            match block {
                kawa::OutBlock::Delimiter => break,
                kawa::OutBlock::Store(store) => {
                    if store.len() > 0 {
                        v.extend_from_slice(store.data(buffer));
                    }
                }
            }
        }
        v
    }

    /// Relies on kawa::Kawa::consume: the first `n` prepared output bytes are
    /// dropped, and the storage may be compacted, which can only free space.
    #[verifier::external_body]
    pub fn out_consume(&mut self, n: usize)
        requires
            n <= msg_out(*old(self)).len(),
        ensures
            msg_out(*final(self)) == msg_out(*old(self)).skip(n as int),
            msg_space(*final(self)) >= msg_space(*old(self)),
            msg_terminated(*final(self)) == msg_terminated(*old(self)),
    {
        self.kawa.consume(n);
    }

}

} // verus!
