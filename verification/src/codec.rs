//! HTTP/2 wire grammar: the 24-byte connection preface, the 9-octet frame
//! header `{length:24, type:8, flags:8, R:1, stream_id:31}`, the SETTINGS
//! payload (a sequence of `(id:16, value:32)` entries) and the WINDOW_UPDATE
//! payload. Parsing and serialization are exact down to the byte.

use vstd::prelude::*;

verus! {

/// The ten registered frame types.
#[derive(Debug, Clone, Copy, PartialEq, Eq, Structural)]
pub enum FrameType {
    Data,
    Headers,
    Priority,
    RstStream,
    Settings,
    PushPromise,
    Ping,
    GoAway,
    WindowUpdate,
    Continuation,
}

/// The frame type encoded by a wire byte, if the byte is registered.
pub open spec fn spec_frame_type(b: u8) -> Option<FrameType> {
    if b == 0 {
        Some(FrameType::Data)
    } else if b == 1 {
        Some(FrameType::Headers)
    } else if b == 2 {
        Some(FrameType::Priority)
    } else if b == 3 {
        Some(FrameType::RstStream)
    } else if b == 4 {
        Some(FrameType::Settings)
    } else if b == 5 {
        Some(FrameType::PushPromise)
    } else if b == 6 {
        Some(FrameType::Ping)
    } else if b == 7 {
        Some(FrameType::GoAway)
    } else if b == 8 {
        Some(FrameType::WindowUpdate)
    } else if b == 9 {
        Some(FrameType::Continuation)
    } else {
        None
    }
}

/// The wire byte of a frame type.
pub open spec fn spec_type_byte(t: FrameType) -> u8 {
    match t {
        FrameType::Data => 0,
        FrameType::Headers => 1,
        FrameType::Priority => 2,
        FrameType::RstStream => 3,
        FrameType::Settings => 4,
        FrameType::PushPromise => 5,
        FrameType::Ping => 6,
        FrameType::GoAway => 7,
        FrameType::WindowUpdate => 8,
        FrameType::Continuation => 9,
    }
}

/// A decoded 9-octet frame header.
#[derive(Debug, Clone, Copy, PartialEq, Eq, Structural)]
pub struct FrameHeader {
    pub payload_len: u32,
    pub frame_type: FrameType,
    pub flags: u8,
    pub stream_id: u32,
}

impl FrameHeader {
    /// A header that can be put on the wire: a 24-bit length and a 31-bit
    /// stream identifier.
    pub open spec fn wf(self) -> bool {
        self.payload_len < 0x1000000 && self.stream_id < 0x80000000
    }
}

/// The 24-bit big-endian length held in the first three header octets.
pub open spec fn spec_len24(b: Seq<u8>) -> u32
    recommends
        b.len() >= 3,
{
    (b[0] as u32 * 0x10000 + b[1] as u32 * 0x100 + b[2] as u32) as u32
}

/// The 31-bit big-endian stream identifier held in octets 5..9, with the
/// reserved high bit masked off.
pub open spec fn spec_stream_id(b: Seq<u8>) -> u32
    recommends
        b.len() >= 9,
{
    ((b[5] as u32 % 0x80) * 0x1000000 + b[6] as u32 * 0x10000 + b[7] as u32 * 0x100
        + b[8] as u32) as u32
}

/// The header encoded by a 9-octet sequence, if its type octet is registered.
pub open spec fn spec_parse_frame_header(b: Seq<u8>) -> Option<FrameHeader>
    recommends
        b.len() == 9,
{
    match spec_frame_type(b[3]) {
        Some(t) => Some(
            FrameHeader {
                payload_len: spec_len24(b),
                frame_type: t,
                flags: b[4],
                stream_id: spec_stream_id(b),
            },
        ),
        None => None,
    }
}

/// The 9-octet encoding of a header (reserved bit zero).
pub open spec fn spec_gen_frame_header(h: FrameHeader) -> Seq<u8>
    recommends
        h.wf(),
{
    seq![
        (h.payload_len / 0x10000 % 0x100) as u8,
        (h.payload_len / 0x100 % 0x100) as u8,
        (h.payload_len % 0x100) as u8,
        spec_type_byte(h.frame_type),
        h.flags,
        (h.stream_id / 0x1000000 % 0x80) as u8,
        (h.stream_id / 0x10000 % 0x100) as u8,
        (h.stream_id / 0x100 % 0x100) as u8,
        (h.stream_id % 0x100) as u8,
    ]
}

/// Parse the 9-octet frame header at the start of `b`. Fails exactly when
/// fewer than 9 octets are given or the type octet is not registered.
pub fn parse_frame_header(b: &[u8]) -> (r: Option<FrameHeader>)
    ensures
        b@.len() >= 9 ==> r == spec_parse_frame_header(b@.subrange(0, 9)),
        b@.len() < 9 ==> r is None,
        r matches Some(h) ==> h.wf(),
{
    if b.len() < 9 {
        return None;
    }
    let tb: u8 = b[3];
    let frame_type: FrameType = if tb == 0 {
        FrameType::Data
    } else if tb == 1 {
        FrameType::Headers
    } else if tb == 2 {
        FrameType::Priority
    } else if tb == 3 {
        FrameType::RstStream
    } else if tb == 4 {
        FrameType::Settings
    } else if tb == 5 {
        FrameType::PushPromise
    } else if tb == 6 {
        FrameType::Ping
    } else if tb == 7 {
        FrameType::GoAway
    } else if tb == 8 {
        FrameType::WindowUpdate
    } else if tb == 9 {
        FrameType::Continuation
    } else {
        return None;
    };
    let payload_len: u32 = b[0] as u32 * 0x10000 + b[1] as u32 * 0x100 + b[2] as u32;
    let stream_id: u32 = (b[5] as u32 % 0x80) * 0x1000000 + b[6] as u32 * 0x10000 + b[7] as u32
        * 0x100 + b[8] as u32;
    let h = FrameHeader { payload_len, frame_type, flags: b[4], stream_id };
    proof {
        let s = b@.subrange(0, 9);
        assert(s[0] == b@[0] && s[1] == b@[1] && s[2] == b@[2] && s[3] == b@[3] && s[4] == b@[4]
            && s[5] == b@[5] && s[6] == b@[6] && s[7] == b@[7] && s[8] == b@[8]);
    }
    Some(h)
}

/// Serialize a frame header to its 9-octet wire form.
pub fn gen_frame_header(h: &FrameHeader) -> (r: Vec<u8>)
    requires
        h.wf(),
    ensures
        r@ == spec_gen_frame_header(*h),
        r@.len() == 9,
{
    let t: u8 = match h.frame_type {
        FrameType::Data => 0,
        FrameType::Headers => 1,
        FrameType::Priority => 2,
        FrameType::RstStream => 3,
        FrameType::Settings => 4,
        FrameType::PushPromise => 5,
        FrameType::Ping => 6,
        FrameType::GoAway => 7,
        FrameType::WindowUpdate => 8,
        FrameType::Continuation => 9,
    };
    let mut r: Vec<u8> = Vec::new();
    r.push((h.payload_len / 0x10000 % 0x100) as u8);
    r.push((h.payload_len / 0x100 % 0x100) as u8);
    r.push((h.payload_len % 0x100) as u8);
    r.push(t);
    r.push(h.flags);
    r.push((h.stream_id / 0x1000000 % 0x80) as u8);
    r.push((h.stream_id / 0x10000 % 0x100) as u8);
    r.push((h.stream_id / 0x100 % 0x100) as u8);
    r.push((h.stream_id % 0x100) as u8);
    proof {
        assert(r@ =~= spec_gen_frame_header(*h));
    }
    r
}

/// A well-formed header survives a serialize/parse round trip unchanged.
pub proof fn lemma_frame_header_round_trip(h: FrameHeader)
    requires
        h.wf(),
    ensures
        spec_parse_frame_header(spec_gen_frame_header(h)) == Some(h),
{
    let b = spec_gen_frame_header(h);
    assert(spec_frame_type(b[3]) == Some(h.frame_type));
    assert(spec_len24(b) == h.payload_len) by (nonlinear_arith)
        requires
            b[0] == h.payload_len / 0x10000 % 0x100,
            b[1] == h.payload_len / 0x100 % 0x100,
            b[2] == h.payload_len % 0x100,
            h.payload_len < 0x1000000,
    ;
    assert(spec_stream_id(b) == h.stream_id) by (nonlinear_arith)
        requires
            b[5] == h.stream_id / 0x1000000 % 0x80,
            b[6] == h.stream_id / 0x10000 % 0x100,
            b[7] == h.stream_id / 0x100 % 0x100,
            b[8] == h.stream_id % 0x100,
            h.stream_id < 0x80000000,
    ;
}

/// The canonical 24-byte connection preface an H2 client must send first:
/// `PRI * HTTP/2.0\r\n\r\nSM\r\n\r\n`.
pub open spec fn spec_preface() -> Seq<u8> {
    seq![
        0x50u8, 0x52, 0x49, 0x20, 0x2a, 0x20, 0x48, 0x54, 0x54, 0x50, 0x2f, 0x32, 0x2e, 0x30,
        0x0d, 0x0a, 0x0d, 0x0a, 0x53, 0x4d, 0x0d, 0x0a, 0x0d, 0x0a,
    ]
}

/// The canonical preface as bytes.
pub fn preface_bytes() -> (r: Vec<u8>)
    ensures
        r@ == spec_preface(),
{
    let mut r: Vec<u8> = Vec::new();
    r.push(0x50);
    r.push(0x52);
    r.push(0x49);
    r.push(0x20);
    r.push(0x2a);
    r.push(0x20);
    r.push(0x48);
    r.push(0x54);
    r.push(0x54);
    r.push(0x50);
    r.push(0x2f);
    r.push(0x32);
    r.push(0x2e);
    r.push(0x30);
    r.push(0x0d);
    r.push(0x0a);
    r.push(0x0d);
    r.push(0x0a);
    r.push(0x53);
    r.push(0x4d);
    r.push(0x0d);
    r.push(0x0a);
    r.push(0x0d);
    r.push(0x0a);
    proof {
        assert(r@ =~= spec_preface());
    }
    r
}

/// `b` is at least 24 bytes long and opens with the canonical preface.
pub open spec fn spec_starts_with_preface(b: Seq<u8>) -> bool {
    b.len() >= 24 && b.subrange(0, 24) =~= spec_preface()
}

/// Check that `b` opens with the canonical 24-byte preface.
pub fn starts_with_preface(b: &[u8]) -> (r: bool)
    ensures
        r == spec_starts_with_preface(b@),
{
    if b.len() < 24 {
        return false;
    }
    let p = preface_bytes();
    let mut i: usize = 0;
    while i < 24
        invariant
            i <= 24,
            b@.len() >= 24,
            p@ == spec_preface(),
            forall|j: int| 0 <= j < i ==> b@[j] == spec_preface()[j],
        decreases 24 - i,
    {
        if b[i] != p[i] {
            proof {
                assert(b@.subrange(0, 24)[i as int] != spec_preface()[i as int]);
            }
            return false;
        }
        i += 1;
    }
    proof {
        assert(b@.subrange(0, 24) =~= spec_preface());
    }
    true
}

/// Copy the bytes of `b` between `start` and `end`.
pub fn subvec(b: &Vec<u8>, start: usize, end: usize) -> (r: Vec<u8>)
    requires
        start <= end <= b@.len(),
    ensures
        r@ == b@.subrange(start as int, end as int),
{
    let mut r: Vec<u8> = Vec::new();
    let mut i: usize = start;
    while i < end
        invariant
            start <= i <= end,
            end <= b@.len(),
            r@.len() == i - start,
            forall|j: int| 0 <= j < r@.len() ==> r@[j] == b@[start + j],
        decreases end - i,
    {
        r.push(b[i]);
        i += 1;
    }
    proof {
        assert(r@ =~= b@.subrange(start as int, end as int));
    }
    r
}

/// One SETTINGS entry: a 16-bit identifier and a 32-bit value.
#[derive(Debug, Clone, Copy, PartialEq, Eq, Structural)]
pub struct Setting {
    pub identifier: u16,
    pub value: u32,
}

/// The entry encoded at position `i` of a SETTINGS payload.
pub open spec fn spec_setting_at(b: Seq<u8>, i: int) -> Setting
    recommends
        0 <= i,
        6 * i + 6 <= b.len(),
{
    Setting {
        identifier: (b[6 * i] as u16 * 0x100 + b[6 * i + 1] as u16) as u16,
        value: (b[6 * i + 2] as u32 * 0x1000000 + b[6 * i + 3] as u32 * 0x10000 + b[6 * i + 4]
            as u32 * 0x100 + b[6 * i + 5] as u32) as u32,
    }
}

/// The entries of a SETTINGS payload in wire order.
pub open spec fn spec_settings_entries(b: Seq<u8>) -> Seq<Setting> {
    Seq::new((b.len() / 6) as nat, |i: int| spec_setting_at(b, i))
}

/// Parse a SETTINGS payload. Fails exactly when the length is not a multiple
/// of six; otherwise yields the entries in wire order.
pub fn parse_settings_payload(b: &[u8]) -> (r: Option<Vec<Setting>>)
    ensures
        r is Some <==> b@.len() % 6 == 0,
        r matches Some(v) ==> v@ == spec_settings_entries(b@),
{
    if b.len() % 6 != 0 {
        return None;
    }
    let total: usize = b.len();
    let n: usize = total / 6;
    let mut v: Vec<Setting> = Vec::new();
    let mut i: usize = 0;
    let mut base: usize = 0;
    while i < n
        invariant
            v@.len() == i,
            i <= n,
            base == 6 * i,
            total == b@.len(),
            n == b@.len() / 6,
            b@.len() % 6 == 0,
            forall|j: int| 0 <= j < i ==> v@[j] == spec_setting_at(b@, j),
        decreases n - i,
    {
        proof {
            assert(6 * (i as int) + 6 <= b@.len()) by (nonlinear_arith)
                requires
                    (i as int) < n,
                    n == b@.len() / 6,
                    b@.len() % 6 == 0,
            ;
        }
        let identifier: u16 = b[base] as u16 * 0x100 + b[base + 1] as u16;
        let value: u32 = b[base + 2] as u32 * 0x1000000 + b[base + 3] as u32 * 0x10000 + b[base
            + 4] as u32 * 0x100 + b[base + 5] as u32;
        v.push(Setting { identifier, value });
        i += 1;
        base += 6;
    }
    proof {
        assert(v@ =~= spec_settings_entries(b@));
    }
    Some(v)
}

/// The six-octet encoding of one SETTINGS entry.
pub open spec fn spec_gen_setting(s: Setting) -> Seq<u8> {
    seq![
        (s.identifier / 0x100) as u8,
        (s.identifier % 0x100) as u8,
        (s.value / 0x1000000) as u8,
        (s.value / 0x10000 % 0x100) as u8,
        (s.value / 0x100 % 0x100) as u8,
        (s.value % 0x100) as u8,
    ]
}

/// Serialize one SETTINGS entry to its six-octet wire form.
pub fn gen_setting(s: &Setting) -> (r: Vec<u8>)
    ensures
        r@ == spec_gen_setting(*s),
        r@.len() == 6,
{
    let mut r: Vec<u8> = Vec::new();
    r.push((s.identifier / 0x100) as u8);
    r.push((s.identifier % 0x100) as u8);
    r.push((s.value / 0x1000000) as u8);
    r.push((s.value / 0x10000 % 0x100) as u8);
    r.push((s.value / 0x100 % 0x100) as u8);
    r.push((s.value % 0x100) as u8);
    proof {
        assert(r@ =~= spec_gen_setting(*s));
    }
    r
}

/// The 32-bit big-endian value held in the first four octets of `b`.
pub open spec fn spec_u32_at(b: Seq<u8>, i: int) -> u32
    recommends
        0 <= i,
        i + 4 <= b.len(),
{
    (b[i] as u32 * 0x1000000 + b[i + 1] as u32 * 0x10000 + b[i + 2] as u32 * 0x100 + b[i + 3]
        as u32) as u32
}

/// Parse a WINDOW_UPDATE payload: exactly four octets carrying a 31-bit
/// increment, with the reserved high bit masked off.
pub fn parse_window_update(b: &[u8]) -> (r: Option<u32>)
    ensures
        r is Some <==> b@.len() == 4,
        r matches Some(inc) ==> inc == spec_u32_at(b@, 0) % 0x80000000 && inc < 0x80000000,
{
    if b.len() != 4 {
        return None;
    }
    let inc: u32 = (b[0] as u32 % 0x80) * 0x1000000 + b[1] as u32 * 0x10000 + b[2] as u32 * 0x100
        + b[3] as u32;
    proof {
        assert(inc == spec_u32_at(b@, 0) % 0x80000000 && inc < 0x80000000) by (nonlinear_arith)
            requires
                inc == (b@[0] as u32 % 0x80) * 0x1000000 + b@[1] as u32 * 0x10000 + b@[2] as u32
                    * 0x100 + b@[3] as u32,
                spec_u32_at(b@, 0) == (b@[0] as u32 * 0x1000000 + b@[1] as u32 * 0x10000 + b@[2]
                    as u32 * 0x100 + b@[3] as u32) as u32,
                b@[0] < 0x100,
                b@[1] < 0x100,
                b@[2] < 0x100,
                b@[3] < 0x100,
        ;
    }
    Some(inc)
}

/// The four-octet big-endian encoding of a 32-bit value.
pub open spec fn spec_gen_u32(value: u32) -> Seq<u8> {
    seq![
        (value / 0x1000000) as u8,
        (value / 0x10000 % 0x100) as u8,
        (value / 0x100 % 0x100) as u8,
        (value % 0x100) as u8,
    ]
}

/// Serialize a 32-bit value big-endian, as carried by RST_STREAM.
pub fn gen_u32(value: u32) -> (r: Vec<u8>)
    ensures
        r@ == spec_gen_u32(value),
        r@.len() == 4,
{
    let mut r: Vec<u8> = Vec::new();
    r.push((value / 0x1000000) as u8);
    r.push((value / 0x10000 % 0x100) as u8);
    r.push((value / 0x100 % 0x100) as u8);
    r.push((value % 0x100) as u8);
    proof {
        assert(r@ =~= spec_gen_u32(value));
    }
    r
}

} // verus!
