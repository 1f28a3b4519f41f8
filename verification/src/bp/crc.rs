//! Block checksums: CRC-16/X.25 and CRC-32C, written big-endian.
use vstd::prelude::*;
use crate::bp::bundle::{Block, Bp7Error, Bp7ErrorView, ByteBuffer};
use crate::octets::{be_bytes, push_be};

verus! {

pub type CRCType = u8;

pub const CRC_NO: CRCType = 0;

pub const CRC_16: CRCType = 1;

pub const CRC_32: CRCType = 2;

pub open spec fn spec_crc_type_name(t: CRCType) -> Seq<char> {
    if t == CRC_NO {
        "no"@
    } else if t == CRC_16 {
        "16"@
    } else if t == CRC_32 {
        "32"@
    } else {
        "unknown"@
    }
}

/// The name of a checksum type.
pub trait CRCFuncations: Sized {
    spec fn spec_name(self) -> Seq<char>;

    fn to_string(self) -> (r: String)
        ensures
            r@ == self.spec_name(),
    ;
}

impl CRCFuncations for CRCType {
    open spec fn spec_name(self) -> Seq<char> {
        spec_crc_type_name(self)
    }

    fn to_string(self) -> (r: String) {
        if self == CRC_NO {
            "no".to_owned()
        } else if self == CRC_16 {
            "16".to_owned()
        } else if self == CRC_32 {
            "32".to_owned()
        } else {
            "unknown".to_owned()
        }
    }
}

/// The length of the checksum of each type.
pub open spec fn crc_len(t: CRCType) -> nat {
    if t == CRC_16 {
        2
    } else if t == CRC_32 {
        4
    } else {
        0
    }
}

/// A checksum of zeros, of the length that the type asks for.
pub fn empty_crc(crc_type: CRCType) -> (r: Result<ByteBuffer, Bp7Error>)
    ensures
        crc_type <= CRC_32 ==> (r matches Ok(v) && v@ == Seq::new(crc_len(crc_type), |i: int| 0u8)),
        crc_type > CRC_32 ==> (r matches Err(e) && e@ == Bp7ErrorView::CrcError(
            "Unknown CRC type"@,
        )),
{
    if crc_type == CRC_NO {
        let v: Vec<u8> = Vec::new();
        assert(v@ =~= Seq::new(0, |i: int| 0u8));
        Ok(v)
    } else if crc_type == CRC_16 {
        let v: Vec<u8> = vec![0u8, 0u8];
        assert(v@ =~= Seq::new(2, |i: int| 0u8));
        Ok(v)
    } else if crc_type == CRC_32 {
        let v: Vec<u8> = vec![0u8, 0u8, 0u8, 0u8];
        assert(v@ =~= Seq::new(4, |i: int| 0u8));
        Ok(v)
    } else {
        Err(Bp7Error::CrcError("Unknown CRC type".to_owned()))
    }
}

/// The CRC-16/X.25 checksum of `data`, as `crc::crc16::checksum_x25` gives it.
pub uninterp spec fn crc16_x25(data: Seq<u8>) -> u16;

/// The CRC-32C (Castagnoli) checksum of `data`, as
/// `crc::crc32::checksum_castagnoli` gives it.
pub uninterp spec fn crc32_castagnoli(data: Seq<u8>) -> u32;

/// Calls `crc::crc16::checksum_x25`; the result is the one named by
/// `crc16_x25`.
#[verifier::external_body]
fn checksum_x25(data: &[u8]) -> (r: u16)
    ensures
        r == crc16_x25(data@),
{
    crc::crc16::checksum_x25(data)
}

/// Calls `crc::crc32::checksum_castagnoli`; the result is the one named by
/// `crc32_castagnoli`.
#[verifier::external_body]
fn checksum_castagnoli(data: &[u8]) -> (r: u32)
    ensures
        r == crc32_castagnoli(data@),
{
    crc::crc32::checksum_castagnoli(data)
}

/// The checksum of the bytes of a block, big-endian, of the given type.
pub open spec fn spec_crc_of(crc_type: CRCType, data: Seq<u8>) -> Seq<u8> {
    if crc_type == CRC_16 {
        be_bytes(crc16_x25(data) as nat, 2)
    } else if crc_type == CRC_32 {
        be_bytes(crc32_castagnoli(data) as nat, 4)
    } else {
        Seq::empty()
    }
}

/// The checksum of `data`, the encoding of a block whose checksum field is
/// zeroed, for the given checksum type.
pub fn calculate_crc(crc_type: CRCType, data: &[u8]) -> (r: ByteBuffer)
    requires
        crc_type <= CRC_32,
    ensures
        r@ == spec_crc_of(crc_type, data@),
{
    let mut output_crc: Vec<u8> = Vec::new();
    if crc_type == CRC_16 {
        let chksm = checksum_x25(data);
        push_be(&mut output_crc, chksm as u64, 2);
    } else if crc_type == CRC_32 {
        let chksm = checksum_castagnoli(data);
        push_be(&mut output_crc, chksm as u64, 4);
    }
    assert(output_crc@ =~= spec_crc_of(crc_type, data@));
    output_crc
}

/// Whether a block's checksum matches `block_bytes`, the encoding of the
/// block with its checksum zeroed. A block without checksum fails the check.
pub fn check_crc<T: Block>(blck: &T, block_bytes: &[u8]) -> (r: bool)
    requires
        blck.spec_crc_type() <= CRC_32,
    ensures
        r == (blck.spec_crc_type() != CRC_NO && blck.spec_crc() == spec_crc_of(
            blck.spec_crc_type(),
            block_bytes@,
        )),
{
    if !blck.has_crc() {
        return false;
    }
    let stored = blck.crc();
    let computed = calculate_crc(blck.crc_type(), block_bytes);
    bytes_eq(stored.as_slice(), computed.as_slice())
}

/// Whether two byte strings are equal.
pub fn bytes_eq(a: &[u8], b: &[u8]) -> (r: bool)
    ensures
        r == (a@ == b@),
{
    if a.len() != b.len() {
        return false;
    }
    let mut i: usize = 0;
    while i < a.len()
        invariant
            a@.len() == b@.len(),
            i <= a@.len(),
            forall|j: int| 0 <= j < i ==> a@[j] == b@[j],
        decreases a@.len() - i,
    {
        if a[i] != b[i] {
            return false;
        }
        i = i + 1;
    }
    assert(a@ =~= b@);
    true
}

/// Zeroes the checksum of a block that has one, as before it is computed.
pub fn reset_crc<T: Block>(blck: &mut T)
    requires
        old(blck).spec_crc_type() <= CRC_32,
    ensures
        final(blck).spec_crc_type() == old(blck).spec_crc_type(),
        old(blck).spec_crc_type() != CRC_NO ==> final(blck).spec_crc() == Seq::new(
            crc_len(old(blck).spec_crc_type()),
            |i: int| 0u8,
        ),
        old(blck).spec_crc_type() == CRC_NO ==> final(blck).spec_crc() == old(blck).spec_crc(),
{
    if blck.has_crc() {
        match empty_crc(blck.crc_type()) {
            Ok(c) => blck.set_crc(c),
            Err(_) => {},
        }
    }
}

} // verus!
