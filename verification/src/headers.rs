//! The HPACK decoder capability and the header-block fragment grammar. The
//! decoder is stateful per connection (its dynamic table evolves across
//! HEADERS frames) and is consumed through the hpack crate; extracting the
//! fragment from a HEADERS payload is this library's own, exact logic.

use vstd::prelude::*;

verus! {

#[verifier::external_type_specification]
#[verifier::external_body]
pub struct ExDecoder<'a>(hpack::Decoder<'a>);

#[verifier::external_type_specification]
#[verifier::external_body]
pub struct ExDecoderError(hpack::decoder::DecoderError);

/// Relies on hpack::Decoder::new: a decoder with an empty dynamic table.
#[verifier::external_body]
pub fn decoder_new() -> hpack::Decoder<'static> {
    hpack::Decoder::new()
}

/// The outcome of hpack's integer decoding of the continuation octets at
/// position `i`: the accumulated value and the total octet count, or `None`
/// where hpack reports an error (buffer exhausted, or five octets reached
/// with the continuation bit still set).
pub open spec fn spec_hpack_int_cont(b: Seq<u8>, i: int, acc: nat, mult: nat, used: nat) -> Option<
    (nat, nat),
>
    decreases 5 - used,
{
    if i >= b.len() || used >= 5 {
        None
    } else {
        let v = acc + (b[i] as nat % 128) * mult;
        if b[i] < 128 {
            Some((v, used + 1))
        } else if used + 1 == 5 {
            None
        } else {
            spec_hpack_int_cont(b, i + 1, v, mult * 128, used + 1)
        }
    }
}

/// The outcome of hpack's integer decoding at position `i` with the given
/// prefix mask (15, 31, 63 or 127): value and octets consumed, or `None`
/// where hpack reports an error.
pub open spec fn spec_hpack_int(b: Seq<u8>, i: int, mask: u8) -> Option<(nat, nat)> {
    if i < 0 || i >= b.len() {
        None
    } else {
        let v0 = b[i] as nat % (mask as nat + 1);
        if v0 < mask as nat {
            Some((v0, 1))
        } else {
            spec_hpack_int_cont(b, i + 1, mask as nat, 1, 1)
        }
    }
}

/// Octets a string literal at position `i` occupies, or `None` where hpack
/// stops with an error before or at the string.
pub open spec fn spec_hpack_str(b: Seq<u8>, i: int) -> Option<nat> {
    match spec_hpack_int(b, i, 127) {
        Some(lc) => {
            if i + lc.1 + lc.0 <= b.len() {
                Some((lc.1 + lc.0) as nat)
            } else {
                None
            }
        }
        None => None,
    }
}

/// Walk the representations of a header block exactly as hpack's decoder
/// does. `false` exactly when the walk reaches a dynamic-table size update
/// whose integer hpack cannot decode: the one representation hpack handles
/// by unwrapping. Every other malformed representation makes hpack stop
/// with an error, so the walk accepts there: nothing beyond it is reached.
pub open spec fn spec_block_safe_from(b: Seq<u8>, i: int) -> bool
    decreases b.len() - i, 5int,
{
    if i < 0 || i >= b.len() {
        true
    } else {
        let o = b[i];
        if o >= 128 {
            match spec_hpack_int(b, i, 127) {
                Some(vc) => {
                    if 1 <= vc.1 && i + vc.1 <= b.len() {
                        spec_block_safe_from(b, i + vc.1)
                    } else {
                        true
                    }
                }
                None => true,
            }
        } else if o >= 64 {
            spec_block_safe_literal(b, i, 63)
        } else if o >= 32 {
            match spec_hpack_int(b, i, 31) {
                Some(vc) => {
                    if 1 <= vc.1 && i + vc.1 <= b.len() {
                        spec_block_safe_from(b, i + vc.1)
                    } else {
                        true
                    }
                }
                None => false,
            }
        } else {
            spec_block_safe_literal(b, i, 15)
        }
    }
}

/// The literal-representation case of the walk: the index integer, then a
/// name string when the index is zero, then the value string.
pub open spec fn spec_block_safe_literal(b: Seq<u8>, i: int, mask: u8) -> bool
    decreases b.len() - i, 4int,
{
    if i < 0 || i >= b.len() {
        true
    } else {
        match spec_hpack_int(b, i, mask) {
            Some(vc) => {
                let strings: int = if vc.0 == 0 {
                    2
                } else {
                    1
                };
                spec_block_safe_strings(b, i + vc.1, strings, i)
            }
            None => true,
        }
    }
}

/// Skip `n` string literals starting at `j`, then continue the walk;
/// `start` is the representation's first octet, kept only so the measure
/// shrinks against it.
pub open spec fn spec_block_safe_strings(b: Seq<u8>, j: int, n: int, start: int) -> bool
    decreases b.len() - start, n + 1,
{
    if n <= 0 {
        if start < j <= b.len() {
            spec_block_safe_from(b, j)
        } else {
            true
        }
    } else {
        match spec_hpack_str(b, j) {
            Some(c) => {
                if 1 <= c && j >= start && j + c <= b.len() {
                    spec_block_safe_strings(b, j + c, n - 1, start)
                } else {
                    true
                }
            }
            None => true,
        }
    }
}

/// A block the decoder can be given: its walk never reaches a size update
/// hpack would fail to decode.
pub open spec fn spec_block_safe(b: Seq<u8>) -> bool {
    spec_block_safe_from(b, 0)
}

/// hpack's integer decoding at `i` with prefix `mask`.
fn scan_int(b: &[u8], i: usize, mask: u8) -> (r: Option<(usize, usize)>)
    requires
        mask == 15 || mask == 31 || mask == 63 || mask == 127,
    ensures
        r is Some <==> spec_hpack_int(b@, i as int, mask) is Some,
        r matches Some(vc) ==> spec_hpack_int(b@, i as int, mask) == Some(
            (vc.0 as nat, vc.1 as nat),
        ) && 1 <= vc.1 && i + vc.1 <= b@.len() && vc.0 < 0x10000000usize + 255,
{
    if i >= b.len() {
        return None;
    }
    let v0: usize = (b[i] % (mask + 1)) as usize;
    if v0 < mask as usize {
        return Some((v0, 1));
    }
    let mut acc: usize = mask as usize;
    let mut mult: usize = 1;
    let mut used: usize = 1;
    let mut j: usize = i + 1;
    loop
        invariant
            1 <= used < 5,
            j == i + used,
            i < b@.len(),
            (used == 1 && mult == 1 && acc <= 127) || (used == 2 && mult == 128 && acc <= 254)
                || (used == 3 && mult == 16384 && acc <= 16510) || (used == 4 && mult == 2097152
                && acc <= 2097278),
            spec_hpack_int(b@, i as int, mask) == spec_hpack_int_cont(
                b@,
                j as int,
                acc as nat,
                mult as nat,
                used as nat,
            ),
        decreases 5 - used,
    {
        if j >= b.len() {
            return None;
        }
        let byte = b[j];
        proof {
            assert((byte as usize % 128) * mult <= 127 * mult) by (nonlinear_arith)
                requires
                    (byte as usize % 128) <= 127,
                    0 <= mult,
            ;
        }
        let v: usize = acc + (byte as usize % 128) * mult;
        if byte < 128 {
            return Some((v, used + 1));
        }
        if used + 1 == 5 {
            return None;
        }
        acc = v;
        mult = mult * 128;
        used = used + 1;
        j = j + 1;
    }
}

/// hpack's string-literal extent at `j`.
fn scan_str(b: &[u8], j: usize) -> (r: Option<usize>)
    ensures
        r is Some <==> spec_hpack_str(b@, j as int) is Some,
        r matches Some(c) ==> spec_hpack_str(b@, j as int) == Some(c as nat) && 1 <= c && j + c
            <= b@.len(),
{
    match scan_int(b, j, 127) {
        Some((len, c)) => {
            if len <= b.len() && c <= b.len() - len && j <= b.len() - len - c {
                Some(c + len)
            } else {
                None
            }
        }
        None => None,
    }
}

/// Decide `spec_block_safe` at run time: walk the block as hpack's decoder
/// will and reject it when the walk meets a size update hpack would choke
/// on.
#[verifier::rlimit(60)]
pub fn block_safe(b: &Vec<u8>) -> (r: bool)
    ensures
        r == spec_block_safe(b@),
{
    let s = b.as_slice();
    let slen: usize = s.len();
    let mut i: usize = 0;
    loop
        invariant
            spec_block_safe(b@) == spec_block_safe_from(s@, i as int),
            s@ == b@,
            slen == s@.len(),
        decreases s@.len() - i,
    {
        if i >= slen {
            return true;
        }
        let o = s[i];
        if o >= 128 {
            match scan_int(s, i, 127) {
                Some((_, c)) => {
                    proof {
                        assert(spec_block_safe_from(s@, i as int) == spec_block_safe_from(
                            s@,
                            i + c as int,
                        ));
                    }
                    i = i + c;
                    proof {
                        assert(spec_block_safe(b@) == spec_block_safe_from(s@, i as int));
                    }
                }
                None => {
                    return true;
                }
            }
        } else if o >= 64 || o < 32 {
            let mask: u8 = if o >= 64 {
                63
            } else {
                15
            };
            proof {
                assert(spec_block_safe_from(s@, i as int) == spec_block_safe_literal(
                    s@,
                    i as int,
                    mask,
                ));
            }
            match scan_int(s, i, mask) {
                Some((idx, c)) => {
                    let strings: usize = if idx == 0 {
                        2
                    } else {
                        1
                    };
                    let mut j: usize = i + c;
                    let mut n: usize = strings;
                    let ghost start = i as int;
                    loop
                        invariant
                            spec_block_safe(b@) == spec_block_safe_strings(
                                s@,
                                j as int,
                                n as int,
                                start,
                            ),
                            s@ == b@,
                            slen == s@.len(),
                            j > start,
                            j <= slen,
                            start >= 0,
                        ensures
                            n == 0,
                            spec_block_safe(b@) == spec_block_safe_strings(
                                s@,
                                j as int,
                                0,
                                start,
                            ),
                            s@ == b@,
                            start < j <= s@.len(),
                        decreases n,
                    {
                        if n == 0 {
                            break;
                        }
                        match scan_str(s, j) {
                            Some(c2) => {
                                j = j + c2;
                                n = n - 1;
                            }
                            None => {
                                return true;
                            }
                        }
                    }
                    proof {
                        assert(spec_block_safe_strings(s@, j as int, 0, start)
                            == spec_block_safe_from(s@, j as int));
                    }
                    i = j;
                    proof {
                        assert(spec_block_safe(b@) == spec_block_safe_from(s@, i as int));
                    }
                }
                None => {
                    return true;
                }
            }
        } else {
            match scan_int(s, i, 31) {
                Some((_, c)) => {
                    proof {
                        assert(spec_block_safe_from(s@, i as int) == spec_block_safe_from(
                            s@,
                            i + c as int,
                        ));
                    }
                    i = i + c;
                    proof {
                        assert(spec_block_safe(b@) == spec_block_safe_from(s@, i as int));
                    }
                }
                None => {
                    return false;
                }
            }
        }
    }
}

/// Relies on hpack::Decoder::decode: on success the decoded name/value
/// pairs in order; on failure the block is malformed for the decoder's
/// current state and the connection must fail with a protocol error. The
/// one representation hpack does not fail gracefully on is a dynamic-table
/// size update with an undecodable integer (its handler unwraps the
/// result), so the block must have passed `block_safe`.
#[verifier::external_body]
pub fn decode_header_block(d: &mut hpack::Decoder<'static>, block: &Vec<u8>) -> (r: Result<
    Vec<(Vec<u8>, Vec<u8>)>,
    hpack::decoder::DecoderError,
>)
    requires
        spec_block_safe(block@),
{
    d.decode(block)
}

/// The wire-form header section of the decoded pairs, in order: for each
/// pair the name, a colon and a space, the value, and CRLF.
pub open spec fn spec_header_lines(pairs: Seq<(Seq<u8>, Seq<u8>)>, i: int) -> Seq<u8>
    decreases pairs.len() - i,
{
    if i < 0 || i >= pairs.len() {
        Seq::empty()
    } else {
        pairs[i].0 + seq![58u8, 32u8] + pairs[i].1 + seq![13u8, 10u8] + spec_header_lines(
            pairs,
            i + 1,
        )
    }
}

/// Serialize decoded header pairs to wire-form header lines.
pub fn encode_header_lines(pairs: &Vec<(Vec<u8>, Vec<u8>)>) -> (r: Vec<u8>)
    ensures
        r@ == spec_header_lines(pairs@.map_values(|p: (Vec<u8>, Vec<u8>)| (p.0@, p.1@)), 0),
{
    let ghost view = pairs@.map_values(|p: (Vec<u8>, Vec<u8>)| (p.0@, p.1@));
    let mut r: Vec<u8> = Vec::new();
    let mut i: usize = 0;
    while i < pairs.len()
        invariant
            i <= pairs@.len(),
            view == pairs@.map_values(|p: (Vec<u8>, Vec<u8>)| (p.0@, p.1@)),
            r@ + spec_header_lines(view, i as int) == spec_header_lines(view, 0),
        decreases pairs@.len() - i,
    {
        let ghost pre = r@;
        let pair = &pairs[i];
        let mut k: usize = 0;
        while k < pair.0.len()
            invariant
                r@ == pre + pair.0@.take(k as int),
                k <= pair.0@.len(),
            decreases pair.0@.len() - k,
        {
            r.push(pair.0[k]);
            k += 1;
            proof {
                assert(pair.0@.take(k as int) =~= pair.0@.take(k - 1).push(pair.0@[k - 1]));
            }
        }
        r.push(58);
        r.push(32);
        let ghost mid = r@;
        let mut v: usize = 0;
        while v < pair.1.len()
            invariant
                r@ == mid + pair.1@.take(v as int),
                v <= pair.1@.len(),
            decreases pair.1@.len() - v,
        {
            r.push(pair.1[v]);
            v += 1;
            proof {
                assert(pair.1@.take(v as int) =~= pair.1@.take(v - 1).push(pair.1@[v - 1]));
            }
        }
        r.push(13);
        r.push(10);
        proof {
            assert(pair.0@.take(pair.0@.len() as int) =~= pair.0@);
            assert(pair.1@.take(pair.1@.len() as int) =~= pair.1@);
            assert(view[i as int] == (pair.0@, pair.1@));
            assert(r@ =~= pre + view[i as int].0 + seq![58u8, 32u8] + view[i as int].1 + seq![
                13u8,
                10u8,
            ]);
            assert(pre + (view[i as int].0 + seq![58u8, 32u8] + view[i as int].1 + seq![
                13u8,
                10u8,
            ] + spec_header_lines(view, i + 1)) =~= r@ + spec_header_lines(view, i + 1));
        }
        i += 1;
    }
    proof {
        assert(spec_header_lines(view, pairs@.len() as int) =~= Seq::<u8>::empty());
        assert(r@ + Seq::<u8>::empty() =~= r@);
    }
    r
}

/// Whether the flag bit selected by the power-of-two `mask` is set.
pub open spec fn spec_flag(flags: u8, mask: u8) -> bool
    recommends
        mask > 0,
{
    (flags as nat / mask as nat) % 2 == 1
}

/// Test one flag bit; `mask` must be a power of two.
pub fn flag_set(flags: u8, mask: u8) -> (r: bool)
    requires
        mask > 0,
    ensures
        r == spec_flag(flags, mask),
{
    (flags / mask) % 2 == 1
}

/// The header-block fragment carried by a HEADERS payload: after the
/// optional pad-length octet (PADDED flag) and the optional 5-octet priority
/// block (PRIORITY flag), up to the start of the padding. `None` when the
/// announced padding and prefix do not fit the payload.
pub open spec fn spec_header_fragment(payload: Seq<u8>, flags: u8) -> Option<Seq<u8>> {
    let pad: int = if spec_flag(flags, 8) && payload.len() > 0 {
        payload[0] as int
    } else {
        0
    };
    let prefix: int = (if spec_flag(flags, 8) {
        1int
    } else {
        0int
    }) + (if spec_flag(flags, 32) {
        5int
    } else {
        0int
    });
    if prefix + pad <= payload.len() && (!spec_flag(flags, 8) || payload.len() > 0) {
        Some(payload.subrange(prefix, payload.len() - pad))
    } else {
        None
    }
}

/// Extract the header-block fragment from a HEADERS payload.
pub fn extract_header_fragment(payload: &Vec<u8>, flags: u8) -> (r: Option<Vec<u8>>)
    ensures
        r matches Some(v) ==> spec_header_fragment(payload@, flags) == Some(v@),
        r is None <==> spec_header_fragment(payload@, flags) is None,
{
    let padded = flag_set(flags, 8);
    let priority = flag_set(flags, 32);
    if padded && payload.len() == 0 {
        return None;
    }
    let pad: usize = if padded {
        payload[0] as usize
    } else {
        0
    };
    let prefix: usize = (if padded {
        1
    } else {
        0
    }) + (if priority {
        5
    } else {
        0
    });
    if prefix > payload.len() || pad > payload.len() - prefix {
        return None;
    }
    let end: usize = payload.len() - pad;
    let mut v: Vec<u8> = Vec::new();
    let mut i: usize = prefix;
    while i < end
        invariant
            prefix <= i <= end,
            end <= payload@.len(),
            v@.len() == i - prefix,
            forall|j: int| 0 <= j < v@.len() ==> v@[j] == payload@[prefix + j],
        decreases end - i,
    {
        v.push(payload[i]);
        i += 1;
    }
    proof {
        assert(v@ =~= payload@.subrange(prefix as int, payload@.len() - pad));
    }
    Some(v)
}

} // verus!
