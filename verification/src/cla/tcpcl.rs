//! The TCP convergence layer, version 4: message types, the
//! parsing of received messages, the encoding of sent ones and the splitting
//! of a bundle into transfer segments.
use vstd::prelude::*;
use vstd::utf8::{valid_utf8, decode_utf8, encode_utf8, encode_utf8_valid_utf8, encode_utf8_decode_utf8};
use vstd::string::StringSliceAdditionalSpecFns;
use vstd::arithmetic::div_mod::lemma_fundamental_div_mod;
use crate::octets::{be_value, read_be, push_be, be_bytes, lemma_be_value_bound, lemma_pow256_small, lemma_be_roundtrip_exact, pow256};

verus! {

/// Message type codes.
#[allow(non_camel_case_types)]
#[derive(Debug, Clone, Copy, PartialEq, Eq)]
pub enum MessageType {
    XFER_SEGMENT,
    XFER_ACK,
    XFER_REFUSE,
    KEEPALIVE,
    SESS_TERM,
    MSG_REJECT,
    SESS_INIT,
}

impl MessageType {
    pub open spec fn spec_code(self) -> u8 {
        match self {
            MessageType::XFER_SEGMENT => 0x01,
            MessageType::XFER_ACK => 0x02,
            MessageType::XFER_REFUSE => 0x03,
            MessageType::KEEPALIVE => 0x04,
            MessageType::SESS_TERM => 0x05,
            MessageType::MSG_REJECT => 0x06,
            MessageType::SESS_INIT => 0x07,
        }
    }

    pub open spec fn spec_from_code(c: u8) -> Option<MessageType> {
        if c == 0x01 {
            Some(MessageType::XFER_SEGMENT)
        } else if c == 0x02 {
            Some(MessageType::XFER_ACK)
        } else if c == 0x03 {
            Some(MessageType::XFER_REFUSE)
        } else if c == 0x04 {
            Some(MessageType::KEEPALIVE)
        } else if c == 0x05 {
            Some(MessageType::SESS_TERM)
        } else if c == 0x06 {
            Some(MessageType::MSG_REJECT)
        } else if c == 0x07 {
            Some(MessageType::SESS_INIT)
        } else {
            None
        }
    }

    /// The code of this message type on the wire.
    pub fn code(&self) -> (r: u8)
        ensures
            r == self.spec_code(),
    {
        match self {
            MessageType::XFER_SEGMENT => 0x01,
            MessageType::XFER_ACK => 0x02,
            MessageType::XFER_REFUSE => 0x03,
            MessageType::KEEPALIVE => 0x04,
            MessageType::SESS_TERM => 0x05,
            MessageType::MSG_REJECT => 0x06,
            MessageType::SESS_INIT => 0x07,
        }
    }

    /// The message type with the given code, if there is one.
    pub fn from_u8(c: u8) -> (r: Option<MessageType>)
        ensures
            r == Self::spec_from_code(c),
    {
        if c == 0x01 {
            Some(MessageType::XFER_SEGMENT)
        } else if c == 0x02 {
            Some(MessageType::XFER_ACK)
        } else if c == 0x03 {
            Some(MessageType::XFER_REFUSE)
        } else if c == 0x04 {
            Some(MessageType::KEEPALIVE)
        } else if c == 0x05 {
            Some(MessageType::SESS_TERM)
        } else if c == 0x06 {
            Some(MessageType::MSG_REJECT)
        } else if c == 0x07 {
            Some(MessageType::SESS_INIT)
        } else {
            None
        }
    }
}

/// Reason codes of a transfer refusal.
#[derive(Debug, Clone, Copy, PartialEq, Eq)]
pub enum XferRefuseReasonCode {
    Unknown,
    Completed,
    NoResources,
    Retransmit,
    NotAcceptable,
    ExtensionFailure,
    SessionTerminating,
}

impl XferRefuseReasonCode {
    pub open spec fn spec_code(self) -> u8 {
        match self {
            XferRefuseReasonCode::Unknown => 0x00,
            XferRefuseReasonCode::Completed => 0x01,
            XferRefuseReasonCode::NoResources => 0x02,
            XferRefuseReasonCode::Retransmit => 0x03,
            XferRefuseReasonCode::NotAcceptable => 0x04,
            XferRefuseReasonCode::ExtensionFailure => 0x05,
            XferRefuseReasonCode::SessionTerminating => 0x06,
        }
    }

    pub open spec fn spec_from_code(c: u8) -> Option<XferRefuseReasonCode> {
        if c == 0x00 {
            Some(XferRefuseReasonCode::Unknown)
        } else if c == 0x01 {
            Some(XferRefuseReasonCode::Completed)
        } else if c == 0x02 {
            Some(XferRefuseReasonCode::NoResources)
        } else if c == 0x03 {
            Some(XferRefuseReasonCode::Retransmit)
        } else if c == 0x04 {
            Some(XferRefuseReasonCode::NotAcceptable)
        } else if c == 0x05 {
            Some(XferRefuseReasonCode::ExtensionFailure)
        } else if c == 0x06 {
            Some(XferRefuseReasonCode::SessionTerminating)
        } else {
            None
        }
    }

    pub fn code(&self) -> (r: u8)
        ensures
            r == self.spec_code(),
    {
        match self {
            XferRefuseReasonCode::Unknown => 0x00,
            XferRefuseReasonCode::Completed => 0x01,
            XferRefuseReasonCode::NoResources => 0x02,
            XferRefuseReasonCode::Retransmit => 0x03,
            XferRefuseReasonCode::NotAcceptable => 0x04,
            XferRefuseReasonCode::ExtensionFailure => 0x05,
            XferRefuseReasonCode::SessionTerminating => 0x06,
        }
    }

    pub fn from_u8(c: u8) -> (r: Option<XferRefuseReasonCode>)
        ensures
            r == Self::spec_from_code(c),
    {
        if c == 0x00 {
            Some(XferRefuseReasonCode::Unknown)
        } else if c == 0x01 {
            Some(XferRefuseReasonCode::Completed)
        } else if c == 0x02 {
            Some(XferRefuseReasonCode::NoResources)
        } else if c == 0x03 {
            Some(XferRefuseReasonCode::Retransmit)
        } else if c == 0x04 {
            Some(XferRefuseReasonCode::NotAcceptable)
        } else if c == 0x05 {
            Some(XferRefuseReasonCode::ExtensionFailure)
        } else if c == 0x06 {
            Some(XferRefuseReasonCode::SessionTerminating)
        } else {
            None
        }
    }
}

/// Reason codes of a session termination.
#[derive(Debug, Clone, Copy, PartialEq, Eq)]
pub enum SessTermReasonCode {
    Unknown,
    IdleTimeout,
    VersionMismatch,
    Busy,
    ContactFailure,
    ResourceExhaustion,
}

impl SessTermReasonCode {
    pub open spec fn spec_code(self) -> u8 {
        match self {
            SessTermReasonCode::Unknown => 0x00,
            SessTermReasonCode::IdleTimeout => 0x01,
            SessTermReasonCode::VersionMismatch => 0x02,
            SessTermReasonCode::Busy => 0x03,
            SessTermReasonCode::ContactFailure => 0x04,
            SessTermReasonCode::ResourceExhaustion => 0x05,
        }
    }

    pub open spec fn spec_from_code(c: u8) -> Option<SessTermReasonCode> {
        if c == 0x00 {
            Some(SessTermReasonCode::Unknown)
        } else if c == 0x01 {
            Some(SessTermReasonCode::IdleTimeout)
        } else if c == 0x02 {
            Some(SessTermReasonCode::VersionMismatch)
        } else if c == 0x03 {
            Some(SessTermReasonCode::Busy)
        } else if c == 0x04 {
            Some(SessTermReasonCode::ContactFailure)
        } else if c == 0x05 {
            Some(SessTermReasonCode::ResourceExhaustion)
        } else {
            None
        }
    }

    pub fn code(&self) -> (r: u8)
        ensures
            r == self.spec_code(),
    {
        match self {
            SessTermReasonCode::Unknown => 0x00,
            SessTermReasonCode::IdleTimeout => 0x01,
            SessTermReasonCode::VersionMismatch => 0x02,
            SessTermReasonCode::Busy => 0x03,
            SessTermReasonCode::ContactFailure => 0x04,
            SessTermReasonCode::ResourceExhaustion => 0x05,
        }
    }

    pub fn from_u8(c: u8) -> (r: Option<SessTermReasonCode>)
        ensures
            r == Self::spec_from_code(c),
    {
        if c == 0x00 {
            Some(SessTermReasonCode::Unknown)
        } else if c == 0x01 {
            Some(SessTermReasonCode::IdleTimeout)
        } else if c == 0x02 {
            Some(SessTermReasonCode::VersionMismatch)
        } else if c == 0x03 {
            Some(SessTermReasonCode::Busy)
        } else if c == 0x04 {
            Some(SessTermReasonCode::ContactFailure)
        } else if c == 0x05 {
            Some(SessTermReasonCode::ResourceExhaustion)
        } else {
            None
        }
    }
}

/// Flags of a transfer segment or acknowledgement.
#[derive(Debug, Clone, Copy, PartialEq, Eq)]
pub struct XferSegmentFlags {
    pub bits: u8,
}

impl XferSegmentFlags {
    pub const END: u8 = 0x01;
    pub const START: u8 = 0x02;

    /// No flag set.
    pub fn empty() -> (r: XferSegmentFlags)
        ensures
            r.bits == 0,
    {
        XferSegmentFlags { bits: 0 }
    }

    /// The flags of `b`, with the bits that no flag uses cleared.
    pub fn from_bits_truncate(b: u8) -> (r: XferSegmentFlags)
        ensures
            r.bits == b & 0x03,
    {
        XferSegmentFlags { bits: b & 0x03 }
    }

    pub fn bits(&self) -> (r: u8)
        ensures
            r == self.bits,
    {
        self.bits
    }

    /// Whether every bit of `other` is set here.
    pub fn contains(&self, other: u8) -> (r: bool)
        ensures
            r == (self.bits & other == other),
    {
        self.bits & other == other
    }

    /// Sets the bits of `other`.
    pub fn insert(&mut self, other: u8)
        ensures
            final(self).bits == old(self).bits | other,
    {
        self.bits = self.bits | other;
    }
}

/// Flags of a session termination.
#[derive(Debug, Clone, Copy, PartialEq, Eq)]
pub struct SessTermFlags {
    pub bits: u8,
}

impl SessTermFlags {
    pub const REPLY: u8 = 0x01;

    pub fn from_bits_truncate(b: u8) -> (r: SessTermFlags)
        ensures
            r.bits == b & 0x01,
    {
        SessTermFlags { bits: b & 0x01 }
    }

    pub fn bits(&self) -> (r: u8)
        ensures
            r == self.bits,
    {
        self.bits
    }
}

/// Flags of the contact header.
#[derive(Debug, Clone, Copy, PartialEq, Eq)]
pub struct ContactHeaderFlags {
    pub bits: u8,
}

impl ContactHeaderFlags {
    pub const CAN_TLS: u8 = 0x01;

    pub fn from_bits_truncate(b: u8) -> (r: ContactHeaderFlags)
        ensures
            r.bits == b & 0x01,
    {
        ContactHeaderFlags { bits: b & 0x01 }
    }

    pub fn bits(&self) -> (r: u8)
        ensures
            r == self.bits,
    {
        self.bits
    }
}

/// The parameters that a node announces when it opens a session.
#[derive(Debug, Clone, PartialEq, Eq, Default)]
pub struct SessInitData {
    pub keepalive: u16,
    pub segment_mru: u64,
    pub transfer_mru: u64,
    pub node_id: String,
}

/// `SessInitData` with the node identifier as a sequence of characters.
pub struct SessInitView {
    pub keepalive: u16,
    pub segment_mru: u64,
    pub transfer_mru: u64,
    pub node_id: Seq<char>,
}

impl View for SessInitData {
    type V = SessInitView;

    open spec fn view(&self) -> SessInitView {
        SessInitView {
            keepalive: self.keepalive,
            segment_mru: self.segment_mru,
            transfer_mru: self.transfer_mru,
            node_id: self.node_id@,
        }
    }
}

/// One segment of a transfer.
#[derive(Debug, Clone, PartialEq, Eq)]
pub struct XferSegData {
    pub flags: XferSegmentFlags,
    pub tid: u64,
    pub len: u64,
    pub buf: Vec<u8>,
}

#[derive(Debug, Clone, Copy, PartialEq, Eq)]
pub struct XferAckData {
    pub flags: XferSegmentFlags,
    pub tid: u64,
    pub len: u64,
}

#[derive(Debug, Clone, Copy, PartialEq, Eq)]
pub struct XferRefuseData {
    pub reason: XferRefuseReasonCode,
    pub tid: u64,
}

#[derive(Debug, Clone, Copy, PartialEq, Eq)]
pub struct SessTermData {
    pub flags: SessTermFlags,
    pub reason: SessTermReasonCode,
}

/// A message received on a session.
#[derive(Debug)]
pub enum TcpClPacket {
    SessInit(SessInitData),
    SessTerm(SessTermData),
    XferSeg,
    XferAck(XferAckData),
    XferRefuse(XferRefuseData),
    KeepAlive,
    MsgReject,
}

/// `TcpClPacket` with its text as a sequence of characters.
pub enum PacketView {
    SessInit(SessInitView),
    SessTerm(SessTermData),
    XferSeg,
    XferAck(XferAckData),
    XferRefuse(XferRefuseData),
    KeepAlive,
    MsgReject,
}

impl View for TcpClPacket {
    type V = PacketView;

    open spec fn view(&self) -> PacketView {
        match self {
            TcpClPacket::SessInit(d) => PacketView::SessInit(d@),
            TcpClPacket::SessTerm(d) => PacketView::SessTerm(*d),
            TcpClPacket::XferSeg => PacketView::XferSeg,
            TcpClPacket::XferAck(d) => PacketView::XferAck(*d),
            TcpClPacket::XferRefuse(d) => PacketView::XferRefuse(*d),
            TcpClPacket::KeepAlive => PacketView::KeepAlive,
            TcpClPacket::MsgReject => PacketView::MsgReject,
        }
    }
}

/// What can go wrong on a session.
#[derive(Debug, Clone, Copy, PartialEq, Eq)]
pub enum TcpClError {
    /// The buffer is shorter than the fixed part of the message.
    NotEnoughBytesReceived,
    /// The buffer ended in the middle of a field.
    ReadError,
    UnknownPacketType(u8),
    UnknownResaonCode(u8),
    SessionExtensionItemsUnsupported,
    /// The bundle is longer than the peer accepts in one transfer.
    BundleTooBig,
}

/// The text of the bytes `b`, decoded as UTF-8 with every invalid sequence
/// replaced by U+FFFD, as `String::from_utf8_lossy` gives it.
pub uninterp spec fn utf8_lossy(b: Seq<u8>) -> Seq<char>;

/// Calls `String::from_utf8_lossy`. Claimed: the result is the text named by
/// `utf8_lossy`, and for valid UTF-8 it is the decoded text, as the standard
/// library documents.
#[verifier::external_body]
fn string_from_utf8_lossy(b: &[u8]) -> (r: String)
    ensures
        r@ == utf8_lossy(b@),
        valid_utf8(b@) ==> r@ == decode_utf8(b@),
{
    String::from_utf8_lossy(b).into_owned()
}

/// The big-endian number in `b` from `from` (inclusive) to `to` (exclusive).
pub open spec fn field(b: Seq<u8>, from: int, to: int) -> nat {
    be_value(b.subrange(from, to))
}

/// What `parses_packet` gives for the buffer `b`: the message or the error,
/// and how many bytes it takes from the front of the buffer.
pub open spec fn spec_parse_packet(b: Seq<u8>) -> (Result<PacketView, TcpClError>, nat) {
    if b.len() == 0 {
        (Err(TcpClError::ReadError), 0)
    } else {
        match MessageType::spec_from_code(b[0]) {
            None => (Err(TcpClError::UnknownPacketType(b[0])), 0),
            Some(MessageType::XFER_SEGMENT) => (Ok(PacketView::XferSeg), 0),
            Some(MessageType::MSG_REJECT) => (Ok(PacketView::MsgReject), 0),
            Some(MessageType::KEEPALIVE) => (Ok(PacketView::KeepAlive), 1),
            Some(MessageType::XFER_ACK) => {
                if b.len() < 18 {
                    (Err(TcpClError::NotEnoughBytesReceived), 0)
                } else {
                    (
                        Ok(
                            PacketView::XferAck(
                                XferAckData {
                                    flags: XferSegmentFlags { bits: b[1] & 0x03 },
                                    tid: field(b, 2, 10) as u64,
                                    len: field(b, 10, 18) as u64,
                                },
                            ),
                        ),
                        18,
                    )
                }
            },
            Some(MessageType::XFER_REFUSE) => {
                if b.len() < 10 {
                    (Err(TcpClError::NotEnoughBytesReceived), 0)
                } else {
                    match XferRefuseReasonCode::spec_from_code(b[1]) {
                        None => (Err(TcpClError::UnknownResaonCode(b[1])), 0),
                        Some(reason) => (
                            Ok(
                                PacketView::XferRefuse(
                                    XferRefuseData { reason, tid: field(b, 2, 10) as u64 },
                                ),
                            ),
                            10,
                        ),
                    }
                }
            },
            Some(MessageType::SESS_TERM) => {
                if b.len() < 3 {
                    (Err(TcpClError::NotEnoughBytesReceived), 0)
                } else {
                    match SessTermReasonCode::spec_from_code(b[2]) {
                        None => (Err(TcpClError::UnknownResaonCode(b[2])), 0),
                        Some(reason) => (
                            Ok(
                                PacketView::SessTerm(
                                    SessTermData {
                                        flags: SessTermFlags { bits: b[1] & 0x01 },
                                        reason,
                                    },
                                ),
                            ),
                            3,
                        ),
                    }
                }
            },
            Some(MessageType::SESS_INIT) => {
                if b.len() < 20 {
                    (Err(TcpClError::NotEnoughBytesReceived), 0)
                } else if b.len() < 21 {
                    (Err(TcpClError::ReadError), 0)
                } else {
                    let n: int = field(b, 19, 21) as int;
                    if b.len() < 25 + n {
                        (Err(TcpClError::ReadError), 0)
                    } else if field(b, 21 + n, 25 + n) != 0 {
                        (Err(TcpClError::SessionExtensionItemsUnsupported), (25 + n) as nat)
                    } else {
                        (
                            Ok(
                                PacketView::SessInit(
                                    SessInitView {
                                        keepalive: field(b, 1, 3) as u16,
                                        segment_mru: field(b, 3, 11) as u64,
                                        transfer_mru: field(b, 11, 19) as u64,
                                        node_id: text_of(b.subrange(21, 21 + n)),
                                    },
                                ),
                            ),
                            (25 + n) as nat,
                        )
                    }
                }
            },
        }
    }
}

/// The text that a node identifier of the bytes `b` reads as: the decoded
/// text where `b` is valid UTF-8, the lossy decoding otherwise.
pub open spec fn text_of(b: Seq<u8>) -> Seq<char> {
    if valid_utf8(b) {
        decode_utf8(b)
    } else {
        utf8_lossy(b)
    }
}

pub open spec fn result_view(r: Result<TcpClPacket, TcpClError>) -> Result<PacketView, TcpClError> {
    match r {
        Ok(p) => Ok(p@),
        Err(e) => Err(e),
    }
}

/// Removes the first `n` bytes of `buffer`.
fn drop_front(buffer: &mut Vec<u8>, n: usize)
    requires
        n <= old(buffer)@.len(),
    ensures
        final(buffer)@ == old(buffer)@.skip(n as int),
{
    let rest = buffer.split_off(n);
    *buffer = rest;
    assert(final(buffer)@ =~= old(buffer)@.skip(n as int));
}

/// Parses the message at the front of `buffer` and removes the bytes that it
/// took.
pub fn parses_packet(buffer: &mut Vec<u8>) -> (r: Result<TcpClPacket, TcpClError>)
    ensures
        result_view(r) == spec_parse_packet(old(buffer)@).0,
        final(buffer)@ == old(buffer)@.skip(spec_parse_packet(old(buffer)@).1 as int),
{
    let ghost b = buffer@;
    if buffer.len() == 0 {
        assert(buffer@ =~= b.skip(0));
        return Err(TcpClError::ReadError);
    }
    assert(b.skip(0) =~= b);
    let mtype = buffer[0];
    match MessageType::from_u8(mtype) {
        None => Err(TcpClError::UnknownPacketType(mtype)),
        Some(MessageType::XFER_SEGMENT) => Ok(TcpClPacket::XferSeg),
        Some(MessageType::MSG_REJECT) => Ok(TcpClPacket::MsgReject),
        Some(MessageType::KEEPALIVE) => {
            drop_front(buffer, 1);
            Ok(TcpClPacket::KeepAlive)
        },
        Some(MessageType::XFER_ACK) => {
            if buffer.len() < 18 {
                return Err(TcpClError::NotEnoughBytesReceived);
            }
            let flags = XferSegmentFlags::from_bits_truncate(buffer[1]);
            let tid = read_be(buffer.as_slice(), 2, 8);
            let len = read_be(buffer.as_slice(), 10, 8);
            drop_front(buffer, 18);
            Ok(TcpClPacket::XferAck(XferAckData { flags, tid, len }))
        },
        Some(MessageType::XFER_REFUSE) => {
            if buffer.len() < 10 {
                return Err(TcpClError::NotEnoughBytesReceived);
            }
            let rcode = buffer[1];
            match XferRefuseReasonCode::from_u8(rcode) {
                Some(reason) => {
                    let tid = read_be(buffer.as_slice(), 2, 8);
                    drop_front(buffer, 10);
                    Ok(TcpClPacket::XferRefuse(XferRefuseData { reason, tid }))
                },
                None => Err(TcpClError::UnknownResaonCode(rcode)),
            }
        },
        Some(MessageType::SESS_TERM) => {
            if buffer.len() < 3 {
                return Err(TcpClError::NotEnoughBytesReceived);
            }
            let flags = SessTermFlags::from_bits_truncate(buffer[1]);
            let rcode = buffer[2];
            match SessTermReasonCode::from_u8(rcode) {
                Some(reason) => {
                    drop_front(buffer, 3);
                    Ok(TcpClPacket::SessTerm(SessTermData { flags, reason }))
                },
                None => Err(TcpClError::UnknownResaonCode(rcode)),
            }
        },
        Some(MessageType::SESS_INIT) => {
            if buffer.len() < 20 {
                return Err(TcpClError::NotEnoughBytesReceived);
            }
            if buffer.len() < 21 {
                return Err(TcpClError::ReadError);
            }
            let keepalive = read_be(buffer.as_slice(), 1, 2);
            let segment_mru = read_be(buffer.as_slice(), 3, 8);
            let transfer_mru = read_be(buffer.as_slice(), 11, 8);
            let node_id_len = read_be(buffer.as_slice(), 19, 2) as usize;
            proof {
                lemma_be_value_bound(b.subrange(19, 21));
                lemma_be_value_bound(b.subrange(1, 3));
                lemma_pow256_small();
            }
            if buffer.len() - 21 < node_id_len || buffer.len() - 21 - node_id_len < 4 {
                return Err(TcpClError::ReadError);
            }
            let node_bytes = slice_subrange(buffer.as_slice(), 21, 21 + node_id_len);
            let node_id = string_from_utf8_lossy(node_bytes.as_slice());
            let ext_items = read_be(buffer.as_slice(), 21 + node_id_len, 4);
            drop_front(buffer, 25 + node_id_len);
            if ext_items != 0 {
                return Err(TcpClError::SessionExtensionItemsUnsupported);
            }
            Ok(
                TcpClPacket::SessInit(
                    SessInitData {
                        keepalive: keepalive as u16,
                        segment_mru,
                        transfer_mru,
                        node_id,
                    },
                ),
            )
        },
    }
}

/// The bytes of `s` from `from` to `to`.
fn slice_subrange(s: &[u8], from: usize, to: usize) -> (r: Vec<u8>)
    requires
        from <= to <= s@.len(),
    ensures
        r@ == s@.subrange(from as int, to as int),
{
    let mut r: Vec<u8> = Vec::new();
    let mut i = from;
    while i < to
        invariant
            from <= i <= to,
            to <= s@.len(),
            r@ == s@.subrange(from as int, i as int),
        decreases to - i,
    {
        r.push(s[i]);
        i = i + 1;
        assert(r@ =~= s@.subrange(from as int, i as int));
    }
    r
}

/// What can go wrong in the contact header that a peer sends.
#[derive(Debug, Clone, Copy, PartialEq, Eq)]
pub enum ContactHeaderError {
    /// The first four bytes are not `dtn!`.
    InvalidMagic,
    /// The version is not 4.
    UnsupportedVersion,
}

/// The contact header that this node sends: the magic `dtn!`, version 4 and
/// no flag.
pub fn encode_contact_header() -> (r: Vec<u8>)
    ensures
        r@ == seq![0x64u8, 0x74u8, 0x6eu8, 0x21u8, 4u8, 0u8],
{
    let r: Vec<u8> = vec![0x64u8, 0x74u8, 0x6eu8, 0x21u8, 4u8, 0u8];
    assert(r@ =~= seq![0x64u8, 0x74u8, 0x6eu8, 0x21u8, 4u8, 0u8]);
    r
}

/// Checks the six bytes of a received contact header and gives its flags.
pub fn parse_contact_header(buf: [u8; 6]) -> (r: Result<ContactHeaderFlags, ContactHeaderError>)
    ensures
        !(buf@[0] == 0x64 && buf@[1] == 0x74 && buf@[2] == 0x6e && buf@[3] == 0x21) ==> r
            == Err::<ContactHeaderFlags, ContactHeaderError>(ContactHeaderError::InvalidMagic),
        (buf@[0] == 0x64 && buf@[1] == 0x74 && buf@[2] == 0x6e && buf@[3] == 0x21) && buf@[4]
            != 4 ==> r == Err::<ContactHeaderFlags, ContactHeaderError>(
            ContactHeaderError::UnsupportedVersion,
        ),
        (buf@[0] == 0x64 && buf@[1] == 0x74 && buf@[2] == 0x6e && buf@[3] == 0x21) && buf@[4]
            == 4 ==> r == Ok::<ContactHeaderFlags, ContactHeaderError>(
            ContactHeaderFlags { bits: buf@[5] & 0x01 },
        ),
{
    if !(buf[0] == 0x64 && buf[1] == 0x74 && buf[2] == 0x6e && buf[3] == 0x21) {
        return Err(ContactHeaderError::InvalidMagic);
    }
    if buf[4] != 4 {
        return Err(ContactHeaderError::UnsupportedVersion);
    }
    Ok(ContactHeaderFlags::from_bits_truncate(buf[5]))
}

/// A keepalive message.
pub fn encode_keepalive() -> (r: Vec<u8>)
    ensures
        r@ == seq![MessageType::KEEPALIVE.spec_code()],
{
    let mut r: Vec<u8> = Vec::new();
    r.push(MessageType::KEEPALIVE.code());
    assert(r@ =~= seq![MessageType::KEEPALIVE.spec_code()]);
    r
}

pub open spec fn spec_encode_sess_term(reason: SessTermReasonCode, flags: SessTermFlags) -> Seq<u8> {
    seq![MessageType::SESS_TERM.spec_code(), flags.bits, reason.spec_code()]
}

/// A session termination message.
pub fn encode_sess_term(reason: SessTermReasonCode, flags: SessTermFlags) -> (r: Vec<u8>)
    ensures
        r@ == spec_encode_sess_term(reason, flags),
{
    let mut r: Vec<u8> = Vec::new();
    r.push(MessageType::SESS_TERM.code());
    r.push(flags.bits());
    r.push(reason.code());
    assert(r@ =~= spec_encode_sess_term(reason, flags));
    r
}

/// The node identifier as sent: its UTF-8 bytes.
pub open spec fn node_id_bytes(d: SessInitView) -> Seq<u8> {
    encode_utf8(d.node_id)
}

pub open spec fn spec_encode_sess_init(d: SessInitView) -> Seq<u8> {
    seq![MessageType::SESS_INIT.spec_code()] + be_bytes(d.keepalive as nat, 2) + be_bytes(
        d.segment_mru as nat,
        8,
    ) + be_bytes(d.transfer_mru as nat, 8) + be_bytes(node_id_bytes(d).len(), 2) + node_id_bytes(d)
        + be_bytes(0, 4)
}

/// A session initialisation message; it announces no extension item.
pub fn encode_sess_init(data: &SessInitData) -> (r: Vec<u8>)
    ensures
        r@ == spec_encode_sess_init(data@),
{
    let mut r: Vec<u8> = Vec::new();
    r.push(MessageType::SESS_INIT.code());
    push_be(&mut r, data.keepalive as u64, 2);
    push_be(&mut r, data.segment_mru, 8);
    push_be(&mut r, data.transfer_mru, 8);
    let bytes = data.node_id.as_str().as_bytes();
    push_be(&mut r, bytes.len() as u64, 2);
    let ghost before = r@;
    let mut i: usize = 0;
    while i < bytes.len()
        invariant
            i <= bytes@.len(),
            r@ == before + bytes@.subrange(0, i as int),
        decreases bytes@.len() - i,
    {
        r.push(bytes[i]);
        i = i + 1;
        assert(r@ =~= before + bytes@.subrange(0, i as int));
    }
    push_be(&mut r, 0, 4);
    proof {
        assert(bytes@.subrange(0, bytes@.len() as int) =~= bytes@);
        assert(data@.node_id == data.node_id@);
    }
    assert(r@ =~= spec_encode_sess_init(data@));
    r
}

pub open spec fn spec_encode_xfer_ack(flags: XferSegmentFlags, tid: u64, ack_len: u64) -> Seq<u8> {
    seq![MessageType::XFER_SEGMENT.spec_code(), flags.bits] + be_bytes(tid as nat, 8) + be_bytes(
        ack_len as nat,
        8,
    )
}

/// An acknowledgement of `ack_len` bytes of transfer `tid`. It carries the
/// type code of a transfer segment.
pub fn encode_xfer_ack(flags: XferSegmentFlags, transfer_id: u64, ack_len: u64) -> (r: Vec<u8>)
    ensures
        r@ == spec_encode_xfer_ack(flags, transfer_id, ack_len),
{
    let mut r: Vec<u8> = Vec::new();
    r.push(MessageType::XFER_SEGMENT.code());
    r.push(flags.bits());
    push_be(&mut r, transfer_id, 8);
    push_be(&mut r, ack_len, 8);
    assert(r@ =~= spec_encode_xfer_ack(flags, transfer_id, ack_len));
    r
}

pub open spec fn spec_encode_xfer_segment(flags: XferSegmentFlags, tid: u64, len: u64, buf: Seq<u8>) -> Seq<u8> {
    seq![MessageType::XFER_ACK.spec_code(), flags.bits] + be_bytes(tid as nat, 8) + be_bytes(0, 4)
        + be_bytes(len as nat, 8) + buf
}

/// A transfer segment with no extension item. It carries the type code of an
/// acknowledgement.
pub fn encode_xfer_segment(seg: &XferSegData) -> (r: Vec<u8>)
    ensures
        r@ == spec_encode_xfer_segment(seg.flags, seg.tid, seg.len, seg.buf@),
{
    let mut r: Vec<u8> = Vec::new();
    r.push(MessageType::XFER_ACK.code());
    r.push(seg.flags.bits());
    push_be(&mut r, seg.tid, 8);
    push_be(&mut r, 0, 4);
    push_be(&mut r, seg.len, 8);
    let ghost before = r@;
    let mut i: usize = 0;
    while i < seg.buf.len()
        invariant
            i <= seg.buf@.len(),
            r@ == before + seg.buf@.subrange(0, i as int),
        decreases seg.buf@.len() - i,
    {
        r.push(seg.buf[i]);
        i = i + 1;
        assert(r@ =~= before + seg.buf@.subrange(0, i as int));
    }
    assert(seg.buf@.subrange(0, seg.buf@.len() as int) =~= seg.buf@);
    assert(r@ =~= spec_encode_xfer_segment(seg.flags, seg.tid, seg.len, seg.buf@));
    r
}

pub open spec fn spec_encode_xfer_refuse(reason: XferRefuseReasonCode, tid: u64) -> Seq<u8> {
    seq![MessageType::XFER_REFUSE.spec_code(), reason.spec_code()] + be_bytes(tid as nat, 8)
}

/// A refusal of transfer `transfer_id`.
pub fn encode_xfer_refuse(reason: XferRefuseReasonCode, transfer_id: u64) -> (r: Vec<u8>)
    ensures
        r@ == spec_encode_xfer_refuse(reason, transfer_id),
{
    let mut r: Vec<u8> = Vec::new();
    r.push(MessageType::XFER_REFUSE.code());
    r.push(reason.code());
    push_be(&mut r, transfer_id, 8);
    assert(r@ =~= spec_encode_xfer_refuse(reason, transfer_id));
    r
}

/// How many segments a transfer of `len` bytes takes with segments of at most
/// `mru` bytes.
pub open spec fn seg_count(len: nat, mru: nat) -> nat {
    len / mru + if len % mru == 0 {
        0nat
    } else {
        1nat
    }
}

/// The length of segment `i` of a transfer of `len` bytes: the whole data
/// where there is one segment, the remainder of the division where it is the
/// last one, and `mru` for every other one.
pub open spec fn seg_len(len: nat, mru: nat, i: nat) -> nat {
    if seg_count(len, mru) == 1 {
        len
    } else if i + 1 == seg_count(len, mru) {
        len % mru
    } else {
        mru
    }
}

/// The flag bits of segment `i` of `n`: START on the first, END on the last.
pub open spec fn seg_flag_bits(n: nat, i: nat) -> u8 {
    if i == 0 && i + 1 == n {
        0x03
    } else if i == 0 {
        0x02
    } else if i + 1 == n {
        0x01
    } else {
        0x00
    }
}

/// The bytes that segment `i` carries.
pub open spec fn seg_buf(data: Seq<u8>, mru: nat, i: nat) -> Seq<u8> {
    data.subrange((i * mru) as int, (i * mru + seg_len(data.len(), mru, i)) as int)
}

pub proof fn lemma_seg_bounds(len: nat, mru: nat, i: nat)
    requires
        mru > 0,
        i < seg_count(len, mru),
    ensures
        i * mru + seg_len(len, mru, i) <= len,
        seg_count(len, mru) <= len,
{
    let q = len / mru;
    let r = len % mru;
    lemma_fundamental_div_mod(len as int, mru as int);
    assert(len == mru * q + r);
    assert(q <= q * mru) by (nonlinear_arith)
        requires
            mru > 0,
    ;
    assert(q * mru == mru * q) by (nonlinear_arith);
    if seg_count(len, mru) == 1 {
        assert(i == 0);
    } else if i + 1 == seg_count(len, mru) {
        if r == 0 {
            assert(i * mru <= q * mru) by (nonlinear_arith)
                requires
                    i <= q,
            ;
        } else {
            assert(i == q);
        }
    } else {
        assert(i + 1 <= q);
        assert((i + 1) * mru <= q * mru) by (nonlinear_arith)
            requires
                i + 1 <= q,
        ;
        assert((i + 1) * mru == i * mru + mru) by (nonlinear_arith);
    }
}

/// Splits `buf` into the segments of transfer `tid`, each of at most
/// `config.segment_mru` bytes. A bundle longer than `config.transfer_mru`
/// is refused.
pub fn generate_xfer_segments(config: &SessInitData, buf: &[u8], tid: u64) -> (r: Result<
    Vec<XferSegData>,
    TcpClError,
>)
    requires
        config.segment_mru > 0,
    ensures
        buf@.len() > config.transfer_mru ==> r == Err::<Vec<XferSegData>, TcpClError>(
            TcpClError::BundleTooBig,
        ),
        buf@.len() <= config.transfer_mru ==> r is Ok,
        r matches Ok(segs) ==> {
            let n = seg_count(buf@.len(), config.segment_mru as nat);
            &&& segs@.len() == n
            &&& forall|i: int|
                0 <= i < n ==> {
                    &&& (#[trigger] segs@[i]).tid == tid
                    &&& segs@[i].flags.bits == seg_flag_bits(n, i as nat)
                    &&& segs@[i].len == seg_len(buf@.len(), config.segment_mru as nat, i as nat)
                    &&& segs@[i].buf@ == seg_buf(buf@, config.segment_mru as nat, i as nat)
                }
        },
{
    let mru = config.segment_mru;
    let len = buf.len() as u64;
    if len > config.transfer_mru {
        return Err(TcpClError::BundleTooBig);
    }
    let fitting: u64 = if len % mru == 0 {
        0
    } else {
        1
    };
    proof {
        lemma_fundamental_div_mod(len as int, mru as int);
        if len % mru != 0 {
            assert(len / mru <= (len / mru) * mru) by (nonlinear_arith)
                requires
                    mru > 0,
            ;
            assert((len / mru) * mru == mru * (len / mru)) by (nonlinear_arith);
        }
    }
    let num_segs = len / mru + fitting;
    let ghost n = seg_count(buf@.len(), mru as nat);
    assert(num_segs == n);
    let mut segs: Vec<XferSegData> = Vec::new();
    let mut i: u64 = 0;
    while i < num_segs
        invariant
            i <= num_segs,
            num_segs == n,
            n == seg_count(buf@.len(), mru as nat),
            mru == config.segment_mru,
            mru > 0,
            len == buf@.len(),
            len <= usize::MAX,
            segs@.len() == i,
            forall|k: int|
                0 <= k < i ==> {
                    &&& (#[trigger] segs@[k]).tid == tid
                    &&& segs@[k].flags.bits == seg_flag_bits(n, k as nat)
                    &&& segs@[k].len == seg_len(buf@.len(), mru as nat, k as nat)
                    &&& segs@[k].buf@ == seg_buf(buf@, mru as nat, k as nat)
                },
        decreases num_segs - i,
    {
        proof {
            lemma_seg_bounds(len as nat, mru as nat, i as nat);
            assert(i * mru <= len) by (nonlinear_arith)
                requires
                    i * mru + seg_len(len as nat, mru as nat, i as nat) <= len,
            ;
        }
        let mut flags = XferSegmentFlags::empty();
        if i == 0 {
            flags.insert(XferSegmentFlags::START);
        }
        if i == num_segs - 1 {
            flags.insert(XferSegmentFlags::END);
        }
        proof {
            assert(0u8 | 0x02u8 == 0x02u8) by (bit_vector);
            assert(0u8 | 0x01u8 == 0x01u8) by (bit_vector);
            assert(0x02u8 | 0x01u8 == 0x03u8) by (bit_vector);
        }
        let seg_length = if num_segs == 1 {
            len
        } else if i == num_segs - 1 {
            len % mru
        } else {
            mru
        };
        let base = i * mru;
        let seg = XferSegData {
            flags,
            tid,
            len: seg_length,
            buf: slice_subrange(buf, base as usize, (base + seg_length) as usize),
        };
        segs.push(seg);
        i = i + 1;
    }
    Ok(segs)
}

/// The data that a sequence of segment buffers carries, in order.
pub open spec fn reassemble(bufs: Seq<Seq<u8>>) -> Seq<u8>
    decreases bufs.len(),
{
    if bufs.len() == 0 {
        Seq::empty()
    } else {
        reassemble(bufs.drop_last()) + bufs.last()
    }
}

proof fn lemma_reassemble_prefix(data: Seq<u8>, mru: nat, k: nat)
    requires
        mru > 0,
        k < seg_count(data.len(), mru),
    ensures
        reassemble(Seq::new(k, |i: int| seg_buf(data, mru, i as nat))) == data.subrange(
            0,
            (k * mru) as int,
        ),
    decreases k,
{
    let f = |i: int| seg_buf(data, mru, i as nat);
    if k == 0 {
        assert(Seq::new(0, f) =~= Seq::<Seq<u8>>::empty());
        assert(data.subrange(0, 0) =~= Seq::<u8>::empty());
    } else {
        let km1 = (k - 1) as nat;
        lemma_reassemble_prefix(data, mru, km1);
        assert(Seq::new(k, f).drop_last() =~= Seq::new(km1, f));
        lemma_seg_bounds(data.len(), mru, km1);
        assert(seg_len(data.len(), mru, km1) == mru);
        assert(km1 * mru + mru == k * mru) by (nonlinear_arith)
            requires
                km1 + 1 == k,
        ;
        assert(data.subrange(0, (km1 * mru) as int) + data.subrange(
            (km1 * mru) as int,
            (k * mru) as int,
        ) =~= data.subrange(0, (k * mru) as int));
    }
}

/// Reassembling the segments of a transfer gives back its data, except where
/// the data is longer than one segment and its length a multiple of the
/// segment size: there the last segment is empty.
pub proof fn law_segments_reassemble(data: Seq<u8>, mru: nat)
    requires
        mru > 0,
        data.len() % mru != 0 || seg_count(data.len(), mru) <= 1,
    ensures
        reassemble(
            Seq::new(seg_count(data.len(), mru), |i: int| seg_buf(data, mru, i as nat)),
        ) == data,
{
    let n = seg_count(data.len(), mru);
    let f = |i: int| seg_buf(data, mru, i as nat);
    if n == 0 {
        assert(Seq::new(0, f) =~= Seq::<Seq<u8>>::empty());
        lemma_fundamental_div_mod(data.len() as int, mru as int);
        assert(data =~= Seq::<u8>::empty());
    } else {
        let km1 = (n - 1) as nat;
        lemma_reassemble_prefix(data, mru, km1);
        let all = Seq::new(n, f);
        assert(all.drop_last() =~= Seq::new(km1, f));
        assert(reassemble(all) == reassemble(all.drop_last()) + all.last());
        assert(all.last() == seg_buf(data, mru, km1));
        lemma_fundamental_div_mod(data.len() as int, mru as int);
        let q = data.len() / mru;
        if n == 1 {
            assert(km1 == 0);
            assert(km1 * mru == 0) by (nonlinear_arith)
                requires
                    km1 == 0,
            ;
            assert(seg_buf(data, mru, km1) =~= data);
            assert(data.subrange(0, 0) =~= Seq::<u8>::empty());
            assert(reassemble(all) =~= data);
        } else {
            assert(km1 == q);
            assert(q * mru == mru * q) by (nonlinear_arith);
            assert(km1 * mru + data.len() % mru == data.len());
            assert(data.subrange(0, (km1 * mru) as int) + seg_buf(data, mru, km1) =~= data);
        }
    }
}

/// A session termination reads back as what was sent, whatever follows it in
/// the buffer; the flags keep only their defined bit.
pub proof fn law_sess_term_roundtrip(reason: SessTermReasonCode, flags: SessTermFlags, rest: Seq<u8>)
    ensures
        spec_parse_packet(spec_encode_sess_term(reason, flags) + rest) == (
            Ok::<PacketView, TcpClError>(
                PacketView::SessTerm(
                    SessTermData { flags: SessTermFlags { bits: flags.bits & 0x01 }, reason },
                ),
            ),
            3nat,
        ),
{
    let b = spec_encode_sess_term(reason, flags) + rest;
    assert(b[0] == 0x05u8 && b[1] == flags.bits && b[2] == reason.spec_code());
    assert(SessTermReasonCode::spec_from_code(reason.spec_code()) == Some(reason));
}

/// A transfer refusal reads back as what was sent.
pub proof fn law_xfer_refuse_roundtrip(reason: XferRefuseReasonCode, tid: u64, rest: Seq<u8>)
    ensures
        spec_parse_packet(spec_encode_xfer_refuse(reason, tid) + rest) == (
            Ok::<PacketView, TcpClError>(PacketView::XferRefuse(XferRefuseData { reason, tid })),
            10nat,
        ),
{
    let b = spec_encode_xfer_refuse(reason, tid) + rest;
    lemma_pow256_small();
    lemma_be_roundtrip_exact(tid as nat, 8);
    assert(b.subrange(2, 10) =~= be_bytes(tid as nat, 8));
    assert(b[0] == 0x03u8 && b[1] == reason.spec_code());
    assert(XferRefuseReasonCode::spec_from_code(reason.spec_code()) == Some(reason));
}

/// An acknowledgement is eighteen bytes: the flags in the second byte, the
/// transfer identifier big-endian in bytes 2 to 10 and the acknowledged
/// length big-endian in bytes 10 to 18. Read with the acknowledgement's own
/// type code in front, it gives back the transfer, the length and the flags'
/// defined bits, and takes all eighteen bytes, whatever follows.
pub proof fn law_xfer_ack_fields(flags: XferSegmentFlags, tid: u64, ack_len: u64, rest: Seq<u8>)
    ensures
        spec_encode_xfer_ack(flags, tid, ack_len).len() == 18,
        spec_encode_xfer_ack(flags, tid, ack_len)[0] == MessageType::XFER_SEGMENT.spec_code(),
        spec_encode_xfer_ack(flags, tid, ack_len)[1] == flags.bits,
        field(spec_encode_xfer_ack(flags, tid, ack_len), 2, 10) == tid,
        field(spec_encode_xfer_ack(flags, tid, ack_len), 10, 18) == ack_len,
        spec_parse_packet(
            spec_encode_xfer_ack(flags, tid, ack_len).update(0, MessageType::XFER_ACK.spec_code()) + rest,
        ) == (
            Ok::<PacketView, TcpClError>(
                PacketView::XferAck(
                    XferAckData { flags: XferSegmentFlags { bits: flags.bits & 0x03 }, tid, len: ack_len },
                ),
            ),
            18nat,
        ),
{
    let e = spec_encode_xfer_ack(flags, tid, ack_len);
    lemma_pow256_small();
    lemma_be_roundtrip_exact(tid as nat, 8);
    lemma_be_roundtrip_exact(ack_len as nat, 8);
    assert(e.len() == 18);
    assert(e.subrange(2, 10) =~= be_bytes(tid as nat, 8));
    assert(e.subrange(10, 18) =~= be_bytes(ack_len as nat, 8));
    let b = e.update(0, MessageType::XFER_ACK.spec_code()) + rest;
    assert(b.subrange(2, 10) =~= e.subrange(2, 10));
    assert(b.subrange(10, 18) =~= e.subrange(10, 18));
    assert(b[0] == 0x02u8 && b[1] == flags.bits);
}

/// A transfer segment is its flags in the second byte, the transfer
/// identifier big-endian in bytes 2 to 10, an empty extension list (four
/// zero bytes), the data length big-endian in bytes 14 to 22, and then the
/// data itself.
pub proof fn law_xfer_segment_fields(flags: XferSegmentFlags, tid: u64, len: u64, buf: Seq<u8>)
    ensures
        spec_encode_xfer_segment(flags, tid, len, buf).len() == 22 + buf.len(),
        spec_encode_xfer_segment(flags, tid, len, buf)[0] == MessageType::XFER_ACK.spec_code(),
        spec_encode_xfer_segment(flags, tid, len, buf)[1] == flags.bits,
        field(spec_encode_xfer_segment(flags, tid, len, buf), 2, 10) == tid,
        field(spec_encode_xfer_segment(flags, tid, len, buf), 10, 14) == 0,
        field(spec_encode_xfer_segment(flags, tid, len, buf), 14, 22) == len,
        spec_encode_xfer_segment(flags, tid, len, buf).subrange(
            22,
            22 + buf.len() as int,
        ) == buf,
{
    let e = spec_encode_xfer_segment(flags, tid, len, buf);
    lemma_pow256_small();
    lemma_be_roundtrip_exact(tid as nat, 8);
    lemma_be_roundtrip_exact(0, 4);
    lemma_be_roundtrip_exact(len as nat, 8);
    assert(e.subrange(2, 10) =~= be_bytes(tid as nat, 8));
    assert(e.subrange(10, 14) =~= be_bytes(0, 4));
    assert(e.subrange(14, 22) =~= be_bytes(len as nat, 8));
    assert(e.subrange(22, 22 + buf.len() as int) =~= buf);
}

/// The shape of a transfer's segments: only the first carries START, only
/// the last carries END, no segment is longer than the segment size, and
/// every segment but the last is exactly that long.
pub proof fn law_segment_shape(len: nat, mru: nat, i: nat)
    requires
        mru > 0,
        i < seg_count(len, mru),
    ensures
        (seg_flag_bits(seg_count(len, mru), i) & XferSegmentFlags::START == XferSegmentFlags::START) <==> i
            == 0,
        (seg_flag_bits(seg_count(len, mru), i) & XferSegmentFlags::END == XferSegmentFlags::END) <==> i + 1
            == seg_count(len, mru),
        seg_len(len, mru, i) <= mru,
        i + 1 < seg_count(len, mru) ==> seg_len(len, mru, i) == mru,
{
    assert(0x03u8 & 0x02u8 == 0x02u8 && 0x03u8 & 0x01u8 == 0x01u8) by (bit_vector);
    assert(0x02u8 & 0x02u8 == 0x02u8 && 0x02u8 & 0x01u8 == 0x00u8) by (bit_vector);
    assert(0x01u8 & 0x02u8 == 0x00u8 && 0x01u8 & 0x01u8 == 0x01u8) by (bit_vector);
    assert(0x00u8 & 0x02u8 == 0x00u8 && 0x00u8 & 0x01u8 == 0x00u8) by (bit_vector);
    let q = len / mru;
    let r = len % mru;
    lemma_fundamental_div_mod(len as int, mru as int);
    assert(r < mru);
    if seg_count(len, mru) == 1 {
        if r == 0 {
            assert(q == 1);
            assert(mru * q == mru) by (nonlinear_arith)
                requires
                    q == 1,
            ;
            assert(len == mru);
        } else {
            assert(q == 0);
            assert(mru * q == 0) by (nonlinear_arith)
                requires
                    q == 0,
            ;
            assert(len == r);
        }
        assert(seg_len(len, mru, i) == len);
    } else if i + 1 == seg_count(len, mru) {
        assert(seg_len(len, mru, i) == r);
    } else {
        assert(seg_len(len, mru, i) == mru);
    }
}

/// Reading a message never takes more bytes than the buffer holds; an
/// empty buffer is a read error, an unknown type code is reported as such
/// and takes nothing, and an acknowledgement shorter than eighteen bytes
/// waits for more.
pub proof fn law_parse_packet_bounds(b: Seq<u8>)
    ensures
        spec_parse_packet(b).1 <= b.len(),
        b.len() == 0 ==> spec_parse_packet(b) == (Err::<PacketView, TcpClError>(TcpClError::ReadError), 0nat),
        b.len() > 0 && MessageType::spec_from_code(b[0]) is None ==> spec_parse_packet(b) == (
            Err::<PacketView, TcpClError>(TcpClError::UnknownPacketType(b[0])),
            0nat,
        ),
        0 < b.len() < 18 && b[0] == MessageType::XFER_ACK.spec_code() ==> spec_parse_packet(b) == (
            Err::<PacketView, TcpClError>(TcpClError::NotEnoughBytesReceived),
            0nat,
        ),
{
}

/// A keepalive reads back as a keepalive of one byte.
pub proof fn law_keepalive_roundtrip(rest: Seq<u8>)
    ensures
        spec_parse_packet(seq![MessageType::KEEPALIVE.spec_code()] + rest) == (
            Ok::<PacketView, TcpClError>(PacketView::KeepAlive),
            1nat,
        ),
{
    let b = seq![MessageType::KEEPALIVE.spec_code()] + rest;
    assert(b[0] == 0x04u8);
}

/// A session initialisation reads back as what was sent, as long as the node
/// identifier fits the 16-bit length field.
pub proof fn law_sess_init_roundtrip(d: SessInitView, rest: Seq<u8>)
    requires
        node_id_bytes(d).len() < 0x1_0000,
    ensures
        spec_parse_packet(spec_encode_sess_init(d) + rest) == (
            Ok::<PacketView, TcpClError>(PacketView::SessInit(d)),
            spec_encode_sess_init(d).len(),
        ),
{
    let nb = node_id_bytes(d);
    let n: int = nb.len() as int;
    let e = spec_encode_sess_init(d);
    let b = e + rest;
    lemma_pow256_small();
    lemma_be_roundtrip_exact(d.keepalive as nat, 2);
    lemma_be_roundtrip_exact(d.segment_mru as nat, 8);
    lemma_be_roundtrip_exact(d.transfer_mru as nat, 8);
    lemma_be_roundtrip_exact(n as nat, 2);
    lemma_be_roundtrip_exact(0, 4);
    assert(e.len() == 25 + n);
    assert(b[0] == 0x07u8);
    assert(b.subrange(1, 3) =~= be_bytes(d.keepalive as nat, 2));
    assert(b.subrange(3, 11) =~= be_bytes(d.segment_mru as nat, 8));
    assert(b.subrange(11, 19) =~= be_bytes(d.transfer_mru as nat, 8));
    assert(b.subrange(19, 21) =~= be_bytes(n as nat, 2));
    assert(field(b, 19, 21) == n);
    assert(b.subrange(21, 21 + n) =~= nb);
    assert(b.subrange(21 + n, 25 + n) =~= be_bytes(0, 4));
    encode_utf8_valid_utf8(d.node_id);
    encode_utf8_decode_utf8(d.node_id);
    assert(text_of(nb) == d.node_id);
    let p = spec_parse_packet(b);
    assert(p.1 == 25 + n);
    assert(p.0 == Ok::<PacketView, TcpClError>(PacketView::SessInit(d)));
}

} // verus!
