//! The minimal TCP convergence layer: each bundle travels as one CBOR byte
//! string (an MPDU), and the receiver finds the end of each MPDU from its
//! CBOR header.
use vstd::prelude::*;
use crate::octets::{be_value, be_bytes, read_be, lemma_be_value_bound, lemma_be_roundtrip_exact, lemma_pow256_small, pow256};

verus! {

/// What the first byte of a CBOR data item says about a byte string.
#[derive(Debug, Clone, Copy, PartialEq, Eq)]
pub enum CborByteString {
    /// A byte string whose length, below 24, is in the first byte.
    Len(u8),
    /// A byte string whose length follows in one byte.
    U8,
    /// ... in two bytes.
    U16,
    /// ... in four bytes.
    U32,
    /// ... in eight bytes.
    U64,
    /// Not a byte string of definite length.
    Not,
}

pub open spec fn spec_cbor_first(input: u8) -> CborByteString {
    if input & 0xe0 != 0x40 {
        CborByteString::Not
    } else {
        let number = input & 0x1f;
        if number < 24 {
            CborByteString::Len(number)
        } else if number == 24 {
            CborByteString::U8
        } else if number == 25 {
            CborByteString::U16
        } else if number == 26 {
            CborByteString::U32
        } else if number == 27 {
            CborByteString::U64
        } else {
            CborByteString::Not
        }
    }
}

/// Classifies the first byte of a CBOR data item.
pub fn cbor_parse_byte_string_len_first(input: u8) -> (r: CborByteString)
    ensures
        r == spec_cbor_first(input),
{
    let byte_string: u8 = 0b0100_0000;
    let type_mask: u8 = 0b1110_0000;
    let payload_mask: u8 = 0b0001_1111;

    if input & type_mask != byte_string {
        return CborByteString::Not;
    }
    let number = input & payload_mask;
    if number < 24 {
        CborByteString::Len(number)
    } else if number == 24 {
        CborByteString::U8
    } else if number == 25 {
        CborByteString::U16
    } else if number == 26 {
        CborByteString::U32
    } else if number == 27 {
        CborByteString::U64
    } else {
        CborByteString::Not
    }
}

/// The number of bytes that follow the first one in the header.
pub open spec fn extra_len(k: CborByteString) -> nat {
    match k {
        CborByteString::U8 => 1,
        CborByteString::U16 => 2,
        CborByteString::U32 => 4,
        CborByteString::U64 => 8,
        _ => 0,
    }
}

pub open spec fn spec_cbor_hdr_len(input: u8) -> nat {
    match spec_cbor_first(input) {
        CborByteString::Not => 0,
        k => 1 + extra_len(k),
    }
}

/// The length of the header of a byte string that starts with `input`, or 0
/// where it does not start a byte string.
pub fn cbor_hdr_len(input: u8) -> (r: usize)
    ensures
        r == spec_cbor_hdr_len(input),
{
    match cbor_parse_byte_string_len_first(input) {
        CborByteString::Len(_) => 1,
        CborByteString::U8 => 2,
        CborByteString::U16 => 3,
        CborByteString::U32 => 5,
        CborByteString::U64 => 9,
        _ => 0,
    }
}

pub open spec fn spec_cbor_len(input: Seq<u8>) -> nat {
    match spec_cbor_first(input[0]) {
        CborByteString::Len(l) => l as nat,
        CborByteString::Not => 0,
        k => be_value(input.subrange(1, 1 + extra_len(k) as int)),
    }
}

/// The length of the byte string whose header starts `input`, or 0 where
/// `input` does not start with a byte string.
pub fn cbor_parse_byte_string_len(input: &[u8]) -> (r: u64)
    requires
        input@.len() >= 1,
        input@.len() >= spec_cbor_hdr_len(input@[0]),
    ensures
        r == spec_cbor_len(input@),
{
    match cbor_parse_byte_string_len_first(input[0]) {
        CborByteString::Len(len) => len as u64,
        CborByteString::U8 => read_be(input, 1, 1),
        CborByteString::U16 => read_be(input, 1, 2),
        CborByteString::U32 => read_be(input, 1, 4),
        CborByteString::U64 => read_be(input, 1, 8),
        _ => 0,
    }
}

/// The header of a CBOR byte string of `len` bytes, in its shortest form.
pub open spec fn cbor_bstr_header(len: nat) -> Seq<u8> {
    if len <= 23 {
        seq![(0x40 + len) as u8]
    } else if len <= 0xff {
        seq![0x58u8, len as u8]
    } else if len <= 0xffff {
        seq![0x59u8] + be_bytes(len, 2)
    } else if len <= 0xffff_ffff {
        seq![0x5au8] + be_bytes(len, 4)
    } else {
        seq![0x5bu8] + be_bytes(len, 8)
    }
}

/// The CBOR encoding of the byte string `b`.
pub open spec fn cbor_byte_string(b: Seq<u8>) -> Seq<u8> {
    cbor_bstr_header(b.len()) + b
}

/// The header of a byte string tells its own length and the length of the
/// string, whatever follows it.
pub proof fn law_cbor_header_roundtrip(len: nat, rest: Seq<u8>)
    requires
        len < 0x1_0000_0000_0000_0000,
    ensures
        spec_cbor_hdr_len(cbor_bstr_header(len)[0]) == cbor_bstr_header(len).len(),
        spec_cbor_len(cbor_bstr_header(len) + rest) == len,
{
    let h = cbor_bstr_header(len);
    let b = h + rest;
    lemma_pow256_small();
    if len <= 23 {
        let x = (0x40 + len) as u8;
        let l8 = len as u8;
        assert(x == 0x40 + l8);
        assert(x & 0xe0 == 0x40 && x & 0x1f == l8) by (bit_vector)
            requires
                x == 0x40 + l8,
                l8 <= 23,
        ;
    } else if len <= 0xff {
        assert(0x58u8 & 0xe0 == 0x40 && 0x58u8 & 0x1f == 24) by (bit_vector);
        assert(b.subrange(1, 2) =~= seq![len as u8]);
        assert(be_value(seq![len as u8]) == be_value(seq![len as u8].drop_last()) * 256 + len);
        assert(seq![len as u8].drop_last() =~= Seq::<u8>::empty());
    } else if len <= 0xffff {
        assert(0x59u8 & 0xe0 == 0x40 && 0x59u8 & 0x1f == 25) by (bit_vector);
        lemma_be_roundtrip_exact(len, 2);
        assert(b.subrange(1, 3) =~= be_bytes(len, 2));
    } else if len <= 0xffff_ffff {
        assert(0x5au8 & 0xe0 == 0x40 && 0x5au8 & 0x1f == 26) by (bit_vector);
        lemma_be_roundtrip_exact(len, 4);
        assert(b.subrange(1, 5) =~= be_bytes(len, 4));
    } else {
        assert(0x5bu8 & 0xe0 == 0x40 && 0x5bu8 & 0x1f == 27) by (bit_vector);
        lemma_be_roundtrip_exact(len, 8);
        assert(b.subrange(1, 9) =~= be_bytes(len, 8));
    }
}

/// Whether the stream `b` starts with the MPDU of a bundle `p` (which ends
/// in 0xff, as every bundle does) followed by `rest`, at least ten bytes in
/// all.
pub open spec fn mpdu_stream(b: Seq<u8>, p: Seq<u8>, rest: Seq<u8>) -> bool {
    &&& b == cbor_byte_string(p) + rest
    &&& p.len() >= 1
    &&& p.last() == 0xff
    &&& p.len() + 9 <= usize::MAX
    &&& b.len() >= 10
}

/// A stream that starts with a complete MPDU whose bundle ends in 0xff is
/// cut exactly after that MPDU, unless the byte string cannot be decoded.
pub proof fn law_decode_takes_one_frame(p: Seq<u8>, rest: Seq<u8>)
    requires
        p.len() >= 1,
        p.last() == 0xff,
        p.len() + 9 <= usize::MAX,
        cbor_byte_string(p).len() + rest.len() >= 10,
    ensures
        ({
            let enc = cbor_byte_string(p);
            let out = spec_decode(enc + rest);
            match cbor_decode_bytes(enc) {
                Some(q) => out == (Ok::<Option<Seq<u8>>, MpduError>(Some(q)), enc.len()),
                None => out == (Err::<Option<Seq<u8>>, MpduError>(MpduError::DecodingError), 0nat),
            }
        }),
        spec_cbor_hdr_len((cbor_byte_string(p) + rest)[0]) + spec_cbor_len(
            (cbor_byte_string(p) + rest).subrange(0, 10),
        ) == cbor_byte_string(p).len(),
{
    let h = cbor_bstr_header(p.len());
    let enc = cbor_byte_string(p);
    let b = enc + rest;
    let tail = b.subrange(h.len() as int, 10);
    law_cbor_header_roundtrip(p.len(), tail);
    assert(b.subrange(0, 10) =~= h + tail);
    assert(b[0] == h[0]);
    assert(b.subrange(0, enc.len() as int) =~= enc);
    assert(b[enc.len() - 1] == p.last());
}

/// The byte string that `serde_cbor::from_slice` decodes from `b` into a
/// `serde_bytes::ByteBuf`, or `None` where it fails.
pub uninterp spec fn cbor_decode_bytes(b: Seq<u8>) -> Option<Seq<u8>>;

/// The bytes in `r`, if any.
pub open spec fn bytes_opt_view(r: Option<Vec<u8>>) -> Option<Seq<u8>> {
    match r {
        Some(v) => Some(v@),
        None => None,
    }
}

/// Calls `serde_cbor::from_slice::<serde_bytes::ByteBuf>`; the result is the
/// one named by `cbor_decode_bytes`. Claimed besides, from the
/// deserializer's source: the encoding of a byte string in the shortest
/// form, with nothing after it, decodes to that byte string.
#[verifier::external_body]
fn decode_cbor_bytes(b: &[u8]) -> (r: Option<Vec<u8>>)
    ensures
        bytes_opt_view(r) == cbor_decode_bytes(b@),
        forall|x: Seq<u8>|
            x.len() < 0x1_0000_0000_0000_0000 && b@ == #[trigger] cbor_byte_string(x) ==> bytes_opt_view(r)
                == Some(x),
{
    match serde_cbor::from_slice::<serde_bytes::ByteBuf>(b) {
        Ok(v) => Some(v.into_vec()),
        Err(_) => None,
    }
}

/// Calls `serde_cbor::to_vec` on `serde_bytes::Bytes`. Claimed, from the
/// serializer's source: it writes the shortest byte string header and then
/// the bytes, into a vector, which cannot fail.
#[verifier::external_body]
fn encode_cbor_bytes(b: &[u8]) -> (r: Option<Vec<u8>>)
    requires
        b@.len() < 0x1_0000_0000_0000_0000,
    ensures
        bytes_opt_view(r) == Some(cbor_byte_string(b@)),
{
    serde_cbor::to_vec(&serde_bytes::Bytes::new(b)).ok()
}

/// An MTCP data unit: the encoding of one bundle, sent as a CBOR byte string.
#[derive(Debug, Clone, PartialEq, Eq, Default)]
pub struct MPDU(pub Vec<u8>);

impl MPDU {
    /// The data unit that carries the bundle encoded as `bundle_cbor`.
    pub fn new(bundle_cbor: Vec<u8>) -> (r: MPDU)
        ensures
            r.0@ == bundle_cbor@,
    {
        MPDU(bundle_cbor)
    }
}

/// What can go wrong in a stream of MPDUs.
#[derive(Debug, Clone, Copy, PartialEq, Eq)]
pub enum MpduError {
    /// The stream does not start with a byte string header.
    InvalidLength,
    /// The last byte of the byte string is not the end of a bundle (0xff).
    TerminatorNotFound,
    /// The byte string cannot be decoded.
    DecodingError,
    /// The announced length does not fit in memory.
    PositionOverflow,
}

/// Splits a stream of bytes into MPDUs.
pub struct MPDUCodec {
    pub last_pos: usize,
}

/// What `MPDUCodec::decode` gives for the buffer `b`, and how many bytes it
/// takes from its front.
pub open spec fn spec_decode(b: Seq<u8>) -> (Result<Option<Seq<u8>>, MpduError>, nat) {
    if b.len() < 10 {
        (Ok(None), 0)
    } else if spec_cbor_hdr_len(b[0]) == 0 {
        (Err(MpduError::InvalidLength), 0)
    } else if spec_cbor_hdr_len(b[0]) + ((spec_cbor_len(b.subrange(0, 10)) as usize) as nat)
        > usize::MAX {
        (Err(MpduError::PositionOverflow), 0)
    } else {
        let end = spec_cbor_hdr_len(b[0]) + ((spec_cbor_len(b.subrange(0, 10)) as usize) as nat);
        if end - 1 < b.len() {
            if b[end - 1] != 0xff {
                (Err(MpduError::TerminatorNotFound), 0)
            } else {
                match cbor_decode_bytes(b.subrange(0, end as int)) {
                    Some(p) => (Ok(Some(p)), end),
                    None => (Err(MpduError::DecodingError), 0),
                }
            }
        } else {
            (Ok(None), 0)
        }
    }
}

pub open spec fn decode_view(r: Result<Option<MPDU>, MpduError>) -> Result<Option<Seq<u8>>, MpduError> {
    match r {
        Ok(Some(m)) => Ok(Some(m.0@)),
        Ok(None) => Ok(None),
        Err(e) => Err(e),
    }
}

impl MPDUCodec {
    pub fn new() -> (r: MPDUCodec)
        ensures
            r.last_pos == 0,
    {
        MPDUCodec { last_pos: 0 }
    }

    /// Takes the first complete MPDU from the front of `buf`, if there is
    /// one; `Ok(None)` asks for more bytes.
    pub fn decode(&mut self, buf: &mut Vec<u8>) -> (r: Result<Option<MPDU>, MpduError>)
        ensures
            decode_view(r) == spec_decode(old(buf)@).0,
            final(buf)@ == old(buf)@.skip(spec_decode(old(buf)@).1 as int),
            r matches Ok(Some(_)) ==> final(self).last_pos == 0,
            !(r matches Ok(Some(_))) ==> final(self).last_pos == old(self).last_pos,
            forall|p: Seq<u8>, rest: Seq<u8>|
                #[trigger] mpdu_stream(old(buf)@, p, rest) ==> decode_view(r) == Ok::<Option<Seq<u8>>, MpduError>(Some(p))
                    && final(buf)@ == rest,
    {
        let ghost b = buf@;
        assert(b.skip(0) =~= b);
        proof {
            assert forall|p: Seq<u8>, rest: Seq<u8>| #[trigger] mpdu_stream(b, p, rest) implies ({
                let enc = cbor_byte_string(p);
                &&& match cbor_decode_bytes(enc) {
                    Some(q) => spec_decode(b) == (Ok::<Option<Seq<u8>>, MpduError>(Some(q)), enc.len()),
                    None => spec_decode(b) == (Err::<Option<Seq<u8>>, MpduError>(MpduError::DecodingError), 0nat),
                }
                &&& b.subrange(0, enc.len() as int) == enc
                &&& b.skip(enc.len() as int) == rest
            }) by {
                law_decode_takes_one_frame(p, rest);
                let enc = cbor_byte_string(p);
                assert(b.subrange(0, enc.len() as int) =~= enc);
                assert(b.skip(enc.len() as int) =~= rest);
            }
        }
        if buf.len() < 10 {
            return Ok(None);
        }
        let hdr = cbor_hdr_len(buf[0]);
        if hdr == 0 {
            return Err(MpduError::InvalidLength);
        }
        let head = slice_prefix(buf.as_slice(), 10);
        let len = cbor_parse_byte_string_len(head.as_slice());
        match hdr.checked_add(len as usize) {
            Some(expected_pos) => {
                match expected_pos.checked_sub(1) {
                    Some(expected_pos) => {
                        if expected_pos < buf.len() {
                            if buf[expected_pos] != 0xff {
                                return Err(MpduError::TerminatorNotFound);
                            }
                            let frame = slice_prefix(buf.as_slice(), expected_pos + 1);
                            match decode_cbor_bytes(frame.as_slice()) {
                                Some(res) => {
                                    let rest = buf.split_off(expected_pos + 1);
                                    *buf = rest;
                                    assert(buf@ =~= b.skip(expected_pos + 1));
                                    self.last_pos = 0;
                                    return Ok(Some(MPDU(res)));
                                },
                                None => {
                                    proof {
                                        assert forall|p: Seq<u8>, rest: Seq<u8>| #[trigger] mpdu_stream(b, p, rest) implies false by {
                                            law_decode_takes_one_frame(p, rest);
                                            assert(frame@ =~= cbor_byte_string(p));
                                        }
                                    }
                                    return Err(MpduError::DecodingError);
                                },
                            }
                        }
                    },
                    None => {
                        return Err(MpduError::PositionOverflow);
                    },
                }
            },
            None => {
                return Err(MpduError::PositionOverflow);
            },
        }
        Ok(None)
    }

    /// Appends the encoding of `item` to `dst`.
    pub fn encode(&mut self, item: MPDU, dst: &mut Vec<u8>)
        ensures
            final(dst)@ == old(dst)@ + cbor_byte_string(item.0@),
            final(self).last_pos == old(self).last_pos,
    {
        let n = item.0.len();
        assert(n == item.0@.len());
        let enc = encode_cbor_bytes(item.0.as_slice());
        match enc {
            Some(v) => append_bytes(dst, v.as_slice()),
            None => {},
        }
    }
}

impl Default for MPDUCodec {
    fn default() -> (r: MPDUCodec)
        ensures
            r.last_pos == 0,
    {
        Self::new()
    }
}

/// The first `n` bytes of `s`.
fn slice_prefix(s: &[u8], n: usize) -> (r: Vec<u8>)
    requires
        n <= s@.len(),
    ensures
        r@ == s@.subrange(0, n as int),
{
    let mut r: Vec<u8> = Vec::new();
    let mut i: usize = 0;
    while i < n
        invariant
            i <= n,
            n <= s@.len(),
            r@ == s@.subrange(0, i as int),
        decreases n - i,
    {
        r.push(s[i]);
        i = i + 1;
        assert(r@ =~= s@.subrange(0, i as int));
    }
    r
}

/// Appends the bytes of `s` to `dst`.
pub fn append_bytes(dst: &mut Vec<u8>, s: &[u8])
    ensures
        final(dst)@ == old(dst)@ + s@,
{
    let ghost before = dst@;
    let mut i: usize = 0;
    while i < s.len()
        invariant
            i <= s@.len(),
            dst@ == before + s@.subrange(0, i as int),
        decreases s@.len() - i,
    {
        dst.push(s[i]);
        i = i + 1;
        assert(dst@ =~= before + s@.subrange(0, i as int));
    }
    assert(s@.subrange(0, s@.len() as int) =~= s@);
}

/// The concatenated encodings of the bundles `bs`, one MPDU each.
pub open spec fn frames(bs: Seq<Seq<u8>>) -> Seq<u8>
    decreases bs.len(),
{
    if bs.len() == 0 {
        Seq::empty()
    } else {
        frames(bs.drop_last()) + cbor_byte_string(bs.last())
    }
}

/// The bytes that `send_bundles` writes for the encoded bundles `bundles`.
pub fn frame_bundles(bundles: &Vec<Vec<u8>>) -> (r: Option<Vec<u8>>)
    ensures
        r matches Some(buf) && buf@ == frames(bundles@.map_values(|b: Vec<u8>| b@)),
{
    let ghost bs = bundles@.map_values(|b: Vec<u8>| b@);
    let mut buf: Vec<u8> = Vec::new();
    let mut i: usize = 0;
    assert(bs.subrange(0, 0) =~= Seq::<Seq<u8>>::empty());
    while i < bundles.len()
        invariant
            i <= bundles@.len(),
            bs == bundles@.map_values(|b: Vec<u8>| b@),
            buf@ == frames(bs.subrange(0, i as int)),
        decreases bundles@.len() - i,
    {
        let b = &bundles[i];
        let blen = b.len();
        assert(blen == b@.len());
        match encode_cbor_bytes(b.as_slice()) {
            Some(enc) => append_bytes(&mut buf, enc.as_slice()),
            None => {
                return None;
            },
        }
        assert(bs.subrange(0, i + 1).drop_last() =~= bs.subrange(0, i as int));
        i = i + 1;
    }
    assert(bs.subrange(0, bundles@.len() as int) =~= bs);
    Some(buf)
}

/// The minimal TCP convergence layer agent.
#[derive(Debug, Copy, Clone)]
pub struct MtcpConvergenceLayer {
    pub counter: u64,
    pub local_port: u16,
}

impl MtcpConvergenceLayer {
    /// An agent that listens on `port`, or on 16162 where none is given.
    pub fn new(port: Option<u16>) -> (r: MtcpConvergenceLayer)
        ensures
            r.counter == 0,
            r.local_port == match port {
                Some(p) => p,
                None => 16162u16,
            },
    {
        MtcpConvergenceLayer {
            counter: 0,
            local_port: match port {
                Some(p) => p,
                None => 16162,
            },
        }
    }
}

impl super::ConvergenceLayerAgent for MtcpConvergenceLayer {
    fn port(&self) -> (r: u16)
        ensures
            r == self.local_port,
    {
        self.local_port
    }

    fn name(&self) -> (r: &str)
        ensures
            r@ == seq!['m', 't', 'c', 'p'],
    {
        proof {
            reveal_strlit("mtcp");
        }
        "mtcp"
    }
}

impl MtcpConvergenceLayer {
    /// The agent as text: `mtcp:` and its local port.
    pub fn to_string(&self) -> (r: String)
        ensures
            r@ == "mtcp:"@ + crate::text::decimal(self.local_port as nat),
    {
        let mut r = "mtcp:".to_owned();
        crate::text::push_decimal(&mut r, self.local_port as u64);
        r
    }
}

} // verus!
