//! Canonical blocks: the payload block and the extension blocks.
use vstd::prelude::*;
use crate::bp::bundle::{
    Block, BlockControlFlags, BlockVariants, BlockVariantsView, Bp7Error, Bp7ErrorList,
    Bp7ErrorView, ByteBuffer, as_err_list, block_flags_validation_error, err_list_view,
    err_opt_view, errs_view, opt_seq, spec_block_flags_error,
};
use crate::bp::crc::{CRCType, CRC_NO, CRC_16, CRC_32, crc_len, spec_crc_of};
use crate::bp::eid::{EndpointID, EidView, eid_validation_error};

verus! {

pub type CanonicalBlockType = u64;

/// A payload block.
pub const PAYLOAD_BLOCK: CanonicalBlockType = 1;

/// A block of the Bundle Security Protocol for integrity.
pub const INTEGRITY_BLOCK: CanonicalBlockType = 2;

/// A block of the Bundle Security Protocol for confidentiality.
pub const CONFIDENTIALITY_BLOCK: CanonicalBlockType = 3;

/// A manifest extension block.
pub const MANIFEST_BLOCK: CanonicalBlockType = 4;

/// A flow label extension block.
pub const FLOW_LABEL_BLOCK: CanonicalBlockType = 6;

/// A previous node block.
pub const PREVIOUS_NODE_BLOCK: CanonicalBlockType = 7;

/// A bundle age block.
pub const BUNDLE_AGE_BLOCK: CanonicalBlockType = 8;

/// A hop count block.
pub const HOP_COUNT_BLOCK: CanonicalBlockType = 9;

/// The data of a canonical block.
#[derive(Debug, PartialEq)]
pub enum CanonicalData {
    /// Hop count and hop limit.
    HopCount(u32, u32),
    PreviousNode(EndpointID),
    /// Bundle age in microseconds.
    BundleAge(u64),
    Data(ByteBuffer),
}

pub enum CanonicalDataView {
    HopCount(u32, u32),
    PreviousNode(EidView),
    BundleAge(u64),
    Data(Seq<u8>),
}

impl View for CanonicalData {
    type V = CanonicalDataView;

    open spec fn view(&self) -> CanonicalDataView {
        match self {
            CanonicalData::HopCount(a, b) => CanonicalDataView::HopCount(*a, *b),
            CanonicalData::PreviousNode(e) => CanonicalDataView::PreviousNode(e@),
            CanonicalData::BundleAge(a) => CanonicalDataView::BundleAge(*a),
            CanonicalData::Data(d) => CanonicalDataView::Data(d@),
        }
    }
}

impl Clone for CanonicalData {
    fn clone(&self) -> (r: Self)
        ensures
            r@ == self@,
    {
        match self {
            CanonicalData::HopCount(a, b) => CanonicalData::HopCount(*a, *b),
            CanonicalData::PreviousNode(e) => CanonicalData::PreviousNode(e.clone()),
            CanonicalData::BundleAge(a) => CanonicalData::BundleAge(*a),
            CanonicalData::Data(d) => CanonicalData::Data(d.clone()),
        }
    }
}

/// A canonical block.
#[derive(Debug, PartialEq)]
pub struct CanonicalBlock {
    pub block_type: CanonicalBlockType,
    pub block_number: u64,
    pub block_control_flags: BlockControlFlags,
    pub crc_type: CRCType,
    pub data: CanonicalData,
    pub crc: ByteBuffer,
}

pub struct CanonicalBlockView {
    pub block_type: CanonicalBlockType,
    pub block_number: u64,
    pub block_control_flags: BlockControlFlags,
    pub crc_type: CRCType,
    pub data: CanonicalDataView,
    pub crc: Seq<u8>,
}

impl View for CanonicalBlock {
    type V = CanonicalBlockView;

    open spec fn view(&self) -> CanonicalBlockView {
        CanonicalBlockView {
            block_type: self.block_type,
            block_number: self.block_number,
            block_control_flags: self.block_control_flags,
            crc_type: self.crc_type,
            data: self.data@,
            crc: self.crc@,
        }
    }
}

impl Clone for CanonicalBlock {
    fn clone(&self) -> (r: Self)
        ensures
            r@ == self@,
    {
        CanonicalBlock {
            block_type: self.block_type,
            block_number: self.block_number,
            block_control_flags: self.block_control_flags,
            crc_type: self.crc_type,
            data: self.data.clone(),
            crc: self.crc.clone(),
        }
    }
}

impl Default for CanonicalBlock {
    fn default() -> (r: Self)
        ensures
            r@ == CanonicalBlock::spec_new(),
    {
        CanonicalBlock::new()
    }
}

/// A block of the given type, number, flags and data, without checksum.
pub open spec fn spec_block(
    block_type: CanonicalBlockType,
    block_number: u64,
    block_control_flags: BlockControlFlags,
    data: CanonicalDataView,
) -> CanonicalBlockView {
    CanonicalBlockView {
        block_type,
        block_number,
        block_control_flags,
        crc_type: CRC_NO,
        data,
        crc: Seq::empty(),
    }
}

pub fn new_canonical_block(
    block_type: CanonicalBlockType,
    block_number: u64,
    block_control_flags: BlockControlFlags,
    data: CanonicalData,
) -> (r: CanonicalBlock)
    ensures
        r@ == spec_block(block_type, block_number, block_control_flags, data@),
{
    let r = CanonicalBlock {
        block_type,
        block_number,
        block_control_flags,
        crc_type: CRC_NO,
        data,
        crc: Vec::new(),
    };
    assert(r@.crc =~= Seq::<u8>::empty());
    r
}

pub open spec fn mismatch_msg() -> Seq<char> {
    "Payload data not matching payload type"@
}

/// The first thing wrong with the data or the type of a block.
pub open spec fn spec_extension_error(b: CanonicalBlockView) -> Option<Bp7ErrorView> {
    let data_err: Option<Bp7ErrorView> = match b.data {
        CanonicalDataView::Data(_) => if b.block_type != PAYLOAD_BLOCK {
            Some(Bp7ErrorView::CanonicalBlockError(mismatch_msg()))
        } else if b.block_number != 0 {
            Some(Bp7ErrorView::CanonicalBlockError("Payload Block's block number is not zero"@))
        } else {
            None
        },
        CanonicalDataView::BundleAge(_) => if b.block_type != BUNDLE_AGE_BLOCK {
            Some(Bp7ErrorView::CanonicalBlockError(mismatch_msg()))
        } else {
            None
        },
        CanonicalDataView::HopCount(_, _) => if b.block_type != HOP_COUNT_BLOCK {
            Some(Bp7ErrorView::CanonicalBlockError(mismatch_msg()))
        } else {
            None
        },
        CanonicalDataView::PreviousNode(e) => if b.block_type != PREVIOUS_NODE_BLOCK {
            Some(Bp7ErrorView::CanonicalBlockError(mismatch_msg()))
        } else {
            eid_validation_error(e)
        },
    };
    match data_err {
        Some(e) => Some(e),
        None => if (b.block_type > 9 && b.block_type < 192) || b.block_type > 255 {
            Some(Bp7ErrorView::CanonicalBlockError("Unknown block type"@))
        } else {
            None
        },
    }
}

/// All that is wrong with a block: its flags, then its data and type.
pub open spec fn spec_canonical_errors(b: CanonicalBlockView) -> Seq<Bp7ErrorView> {
    opt_seq(spec_block_flags_error(b.block_control_flags)) + opt_seq(spec_extension_error(b))
}

impl CanonicalBlock {
    pub open spec fn spec_new() -> CanonicalBlockView {
        spec_block(PAYLOAD_BLOCK, 0, 0, CanonicalDataView::Data(Seq::empty()))
    }

    /// An empty payload block.
    pub fn new() -> (r: CanonicalBlock)
        ensures
            r@ == Self::spec_new(),
    {
        let r = CanonicalBlock {
            block_type: PAYLOAD_BLOCK,
            block_number: 0,
            block_control_flags: 0,
            crc_type: CRC_NO,
            data: CanonicalData::Data(Vec::new()),
            crc: Vec::new(),
        };
        assert(r@.crc =~= Seq::<u8>::empty());
        assert(r@.data == CanonicalDataView::Data(Seq::<u8>::empty()));
        r
    }

    /// The errors of the block, or `None` where it is valid.
    pub fn validation_errors(&self) -> (r: Option<Bp7ErrorList>)
        ensures
            err_list_view(r) == as_err_list(spec_canonical_errors(self@)),
    {
        let mut errors: Bp7ErrorList = Vec::new();
        if let Some(err) = block_flags_validation_error(self.block_control_flags) {
            errors.push(err);
        }
        if let Some(err) = self.extension_validation_error() {
            errors.push(err);
        }
        assert(errs_view(errors@) =~= spec_canonical_errors(self@));
        if errors.len() != 0 {
            return Some(errors);
        }
        None
    }

    /// The first thing wrong with the data or the type of the block.
    pub fn extension_validation_error(&self) -> (r: Option<Bp7Error>)
        ensures
            err_opt_view(r) == spec_extension_error(self@),
    {
        match &self.data {
            CanonicalData::Data(_) => {
                if self.block_type != PAYLOAD_BLOCK {
                    return Some(
                        Bp7Error::CanonicalBlockError(
                            "Payload data not matching payload type".to_owned(),
                        ),
                    );
                }
                if self.block_number != 0 {
                    return Some(
                        Bp7Error::CanonicalBlockError(
                            "Payload Block's block number is not zero".to_owned(),
                        ),
                    );
                }
            },
            CanonicalData::BundleAge(_) => {
                if self.block_type != BUNDLE_AGE_BLOCK {
                    return Some(
                        Bp7Error::CanonicalBlockError(
                            "Payload data not matching payload type".to_owned(),
                        ),
                    );
                }
            },
            CanonicalData::HopCount(_, _) => {
                if self.block_type != HOP_COUNT_BLOCK {
                    return Some(
                        Bp7Error::CanonicalBlockError(
                            "Payload data not matching payload type".to_owned(),
                        ),
                    );
                }
            },
            CanonicalData::PreviousNode(prev_eid) => {
                if self.block_type != PREVIOUS_NODE_BLOCK {
                    return Some(
                        Bp7Error::CanonicalBlockError(
                            "Payload data not matching payload type".to_owned(),
                        ),
                    );
                }
                if let Some(err) = prev_eid.validation_error() {
                    return Some(err);
                }
            },
        }
        if (self.block_type > 9 && self.block_type < 192) || (self.block_type > 255) {
            return Some(Bp7Error::CanonicalBlockError("Unknown block type".to_owned()));
        }
        None
    }

    pub fn get_data(&mut self) -> (r: &CanonicalData)
        ensures
            r@ == old(self).data@,
            final(self)@ == old(self)@,
    {
        &self.data
    }

    pub fn set_data(&mut self, data: CanonicalData)
        ensures
            final(self)@ == (CanonicalBlockView { data: data@, ..old(self)@ }),
    {
        self.data = data;
    }
}

/// A hop count block with hop count 0 and the given limit.
pub fn new_hop_count_block(block_number: u64, bcf: BlockControlFlags, limit: u32) -> (r: CanonicalBlock)
    ensures
        r@ == spec_block(HOP_COUNT_BLOCK, block_number, bcf, CanonicalDataView::HopCount(0, limit)),
{
    new_canonical_block(HOP_COUNT_BLOCK, block_number, bcf, CanonicalData::HopCount(0, limit))
}

/// The payload block, number 0, that carries `data`.
pub fn new_payload_block(bcf: BlockControlFlags, data: ByteBuffer) -> (r: CanonicalBlock)
    ensures
        r@ == spec_block(PAYLOAD_BLOCK, 0, bcf, CanonicalDataView::Data(data@)),
{
    new_canonical_block(PAYLOAD_BLOCK, 0, bcf, CanonicalData::Data(data))
}

/// A previous node block naming `prev`.
pub fn new_previous_node_block(block_number: u64, bcf: BlockControlFlags, prev: EndpointID) -> (r:
    CanonicalBlock)
    ensures
        r@ == spec_block(
            PREVIOUS_NODE_BLOCK,
            block_number,
            bcf,
            CanonicalDataView::PreviousNode(prev@),
        ),
{
    new_canonical_block(PREVIOUS_NODE_BLOCK, block_number, bcf, CanonicalData::PreviousNode(prev))
}

/// A bundle age block of age `time`.
pub fn new_bundle_age_block(block_number: u64, bcf: BlockControlFlags, time: u64) -> (r:
    CanonicalBlock)
    ensures
        r@ == spec_block(BUNDLE_AGE_BLOCK, block_number, bcf, CanonicalDataView::BundleAge(time)),
{
    new_canonical_block(BUNDLE_AGE_BLOCK, block_number, bcf, CanonicalData::BundleAge(time))
}

impl Block for CanonicalBlock {
    open spec fn spec_crc_type(&self) -> CRCType {
        self.crc_type
    }

    open spec fn spec_crc(&self) -> Seq<u8> {
        self.crc@
    }

    fn has_crc(&self) -> (r: bool) {
        self.crc_type != CRC_NO
    }

    fn crc(&self) -> (r: ByteBuffer) {
        self.crc.clone()
    }

    fn set_crc_type(&mut self, crc_type: CRCType)
        ensures
            final(self)@ == (CanonicalBlockView { crc_type, ..old(self)@ }),
    {
        self.crc_type = crc_type;
    }

    fn crc_type(&self) -> (r: CRCType) {
        self.crc_type
    }

    fn set_crc(&mut self, crc: ByteBuffer)
        ensures
            final(self)@ == (CanonicalBlockView { crc: crc@, ..old(self)@ }),
    {
        self.crc = crc;
    }
}

/// The shape in which a canonical block is encoded: without checksum where
/// it has none, with it otherwise.
pub open spec fn spec_canonical_to_variant(b: CanonicalBlockView) -> BlockVariantsView {
    if b.crc_type == CRC_NO {
        BlockVariantsView::CanonicalWithoutCrc(
            b.block_type,
            b.block_number,
            b.block_control_flags,
            b.crc_type,
            b.data,
        )
    } else {
        BlockVariantsView::Canonical(
            b.block_type,
            b.block_number,
            b.block_control_flags,
            b.crc_type,
            b.data,
            b.crc,
        )
    }
}

/// The block that a canonical shape describes; a shape without checksum
/// gives an empty checksum.
pub open spec fn spec_canonical_from_variant(v: BlockVariantsView) -> CanonicalBlockView {
    match v {
        BlockVariantsView::CanonicalWithoutCrc(t, n, f, c, d) => CanonicalBlockView {
            block_type: t,
            block_number: n,
            block_control_flags: f,
            crc_type: c,
            data: d,
            crc: Seq::empty(),
        },
        BlockVariantsView::Canonical(t, n, f, c, d, x) => CanonicalBlockView {
            block_type: t,
            block_number: n,
            block_control_flags: f,
            crc_type: c,
            data: d,
            crc: x,
        },
        _ => CanonicalBlock::spec_new(),
    }
}

pub open spec fn is_canonical_variant(v: BlockVariantsView) -> bool {
    v is CanonicalWithoutCrc || v is Canonical
}

impl CanonicalBlock {
    /// The shape in which the block is encoded.
    pub fn to_variant(&self) -> (r: BlockVariants)
        ensures
            r@ == spec_canonical_to_variant(self@),
    {
        if self.crc_type == CRC_NO {
            BlockVariants::CanonicalWithoutCrc(
                self.block_type,
                self.block_number,
                self.block_control_flags,
                self.crc_type,
                self.data.clone(),
            )
        } else {
            BlockVariants::Canonical(
                self.block_type,
                self.block_number,
                self.block_control_flags,
                self.crc_type,
                self.data.clone(),
                self.crc.clone(),
            )
        }
    }

    /// The block that a canonical shape describes.
    pub fn from(item: BlockVariants) -> (r: CanonicalBlock)
        requires
            is_canonical_variant(item@),
        ensures
            r@ == spec_canonical_from_variant(item@),
    {
        match item {
            BlockVariants::CanonicalWithoutCrc(
                block_type,
                block_number,
                block_control_flags,
                crc_type,
                data,
            ) => {
                let r = CanonicalBlock {
                    block_type,
                    block_number,
                    block_control_flags,
                    crc_type,
                    data,
                    crc: Vec::new(),
                };
                assert(r@.crc =~= Seq::<u8>::empty());
                r
            },
            BlockVariants::Canonical(
                block_type,
                block_number,
                block_control_flags,
                crc_type,
                data,
                crc,
            ) => CanonicalBlock { block_type, block_number, block_control_flags, crc_type, data, crc },
            _ => CanonicalBlock::new(),
        }
    }
}

/// Encoding a canonical block and reading it back gives the block, except
/// that a block without checksum type loses any checksum bytes it held.
pub proof fn law_canonical_variant_roundtrip(b: CanonicalBlockView)
    ensures
        is_canonical_variant(spec_canonical_to_variant(b)),
        spec_canonical_from_variant(spec_canonical_to_variant(b)) == (if b.crc_type == CRC_NO {
            CanonicalBlockView { crc: Seq::empty(), ..b }
        } else {
            b
        }),
{
}

/// Reading a canonical shape and encoding the block again gives the shape,
/// where the shape agrees with its checksum type.
pub proof fn law_canonical_variant_stable(v: BlockVariantsView)
    requires
        v matches BlockVariantsView::CanonicalWithoutCrc(_, _, _, c, _) ==> c == CRC_NO,
        v matches BlockVariantsView::Canonical(_, _, _, c, _, _) ==> c != CRC_NO,
        is_canonical_variant(v),
    ensures
        spec_canonical_to_variant(spec_canonical_from_variant(v)) == v,
{
}

/// The canonical block as its checksum is computed over it: with a checksum
/// of zeros where it has a checksum type.
pub open spec fn canonical_zeroed(b: CanonicalBlockView) -> CanonicalBlockView {
    if b.crc_type == CRC_NO {
        b
    } else {
        CanonicalBlockView { crc: Seq::new(crc_len(b.crc_type), |i: int| 0u8), ..b }
    }
}

/// A canonical block's checksum checks once it is set: for any encoding `enc`
/// of blocks with their checksum zeroed, the block that gets the checksum
/// computed (`calculate_crc`) over `enc` of the block zeroed is the same
/// block once zeroed, so `check_crc` over `enc` of it succeeds; and
/// `check_crc` of the block itself succeeds exactly when its checksum
/// already was that one.
pub proof fn law_canonical_crc_checks(b: CanonicalBlockView, enc: spec_fn(CanonicalBlockView) -> Seq<u8>)
    requires
        b.crc_type == CRC_16 || b.crc_type == CRC_32,
    ensures
        ({
            let c = spec_crc_of(b.crc_type, enc(canonical_zeroed(b)));
            let b2 = CanonicalBlockView { crc: c, ..b };
            &&& canonical_zeroed(b2) == canonical_zeroed(b)
            &&& b2.crc_type != CRC_NO && b2.crc == spec_crc_of(b2.crc_type, enc(canonical_zeroed(b2)))
            &&& (b.crc_type != CRC_NO && b.crc == spec_crc_of(b.crc_type, enc(canonical_zeroed(b)))) <==> b.crc == c
        }),
{
    let c = spec_crc_of(b.crc_type, enc(canonical_zeroed(b)));
    let b2 = CanonicalBlockView { crc: c, ..b };
    assert(canonical_zeroed(b2) =~= canonical_zeroed(b));
}

} // verus!
