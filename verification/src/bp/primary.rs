//! The primary block of a bundle.
use vstd::prelude::*;
use crate::bp::bundle::{
    Block, BlockVariants, BlockVariantsView, Bp7Error, Bp7ErrorList, Bp7ErrorView,
    BundleControlFlags, ByteBuffer, DtnVersionType, FragOffsetType, LifetimeType,
    TotalDataLengthType, BUNDLE_IS_FRAGMENT, DTN_VERSION, as_err_list,
    bundle_flags_validation_errors, err_list_view, errs_view, opt_seq, spec_bundle_flags_errors,
};
use crate::bp::crc::{CRCType, CRC_NO, CRC_16, CRC_32, crc_len, spec_crc_of};
use crate::bp::dtntime::CreationTimestamp;
use crate::bp::eid::{EndpointID, EidView, eid_validation_error, spec_eid_parse};
use crate::text::{decimal, push_decimal, string_push_str};

verus! {

/// The primary block of a bundle.
#[derive(Debug, PartialEq)]
pub struct PrimaryBlock {
    pub version: DtnVersionType,
    pub bundle_control_flags: BundleControlFlags,
    pub crc_type: CRCType,
    pub destination: EndpointID,
    pub source: EndpointID,
    pub report_to: EndpointID,
    pub creation_timestamp: CreationTimestamp,
    pub lifetime: LifetimeType,
    pub fragmentation_offset: FragOffsetType,
    pub total_data_length: TotalDataLengthType,
    pub crc: ByteBuffer,
}

pub struct PrimaryBlockView {
    pub version: DtnVersionType,
    pub bundle_control_flags: BundleControlFlags,
    pub crc_type: CRCType,
    pub destination: EidView,
    pub source: EidView,
    pub report_to: EidView,
    pub creation_timestamp: CreationTimestamp,
    pub lifetime: LifetimeType,
    pub fragmentation_offset: FragOffsetType,
    pub total_data_length: TotalDataLengthType,
    pub crc: Seq<u8>,
}

impl View for PrimaryBlock {
    type V = PrimaryBlockView;

    open spec fn view(&self) -> PrimaryBlockView {
        PrimaryBlockView {
            version: self.version,
            bundle_control_flags: self.bundle_control_flags,
            crc_type: self.crc_type,
            destination: self.destination@,
            source: self.source@,
            report_to: self.report_to@,
            creation_timestamp: self.creation_timestamp,
            lifetime: self.lifetime,
            fragmentation_offset: self.fragmentation_offset,
            total_data_length: self.total_data_length,
            crc: self.crc@,
        }
    }
}

impl Clone for PrimaryBlock {
    fn clone(&self) -> (r: Self)
        ensures
            r@ == self@,
    {
        PrimaryBlock {
            version: self.version,
            bundle_control_flags: self.bundle_control_flags,
            crc_type: self.crc_type,
            destination: self.destination.clone(),
            source: self.source.clone(),
            report_to: self.report_to.clone(),
            creation_timestamp: self.creation_timestamp,
            lifetime: self.lifetime,
            fragmentation_offset: self.fragmentation_offset,
            total_data_length: self.total_data_length,
            crc: self.crc.clone(),
        }
    }
}

impl Default for PrimaryBlock {
    fn default() -> (r: Self)
        ensures
            r@ == PrimaryBlock::spec_new(),
    {
        PrimaryBlock::new()
    }
}

pub open spec fn dtn_none_view() -> EidView {
    EidView::DtnNone(1, 0)
}

/// The message for a block of another version than 7.
pub open spec fn wrong_version_msg(v: DtnVersionType) -> Seq<char> {
    "Wrong version, "@ + decimal(v as nat) + " instead of "@ + decimal(DTN_VERSION as nat)
}

/// All that is wrong with a primary block: its version, its flags, then its
/// destination, source and report-to endpoints.
pub open spec fn spec_primary_errors(b: PrimaryBlockView) -> Seq<Bp7ErrorView> {
    (if b.version != DTN_VERSION {
        seq![Bp7ErrorView::PrimaryBlockError(wrong_version_msg(b.version))]
    } else {
        Seq::empty()
    }) + spec_bundle_flags_errors(b.bundle_control_flags) + opt_seq(
        eid_validation_error(b.destination),
    ) + opt_seq(eid_validation_error(b.source)) + opt_seq(eid_validation_error(b.report_to))
}

pub open spec fn spec_has_fragmentation(b: PrimaryBlockView) -> bool {
    b.bundle_control_flags & BUNDLE_IS_FRAGMENT != 0
}

impl PrimaryBlock {
    pub open spec fn spec_new() -> PrimaryBlockView {
        PrimaryBlockView {
            version: DTN_VERSION,
            bundle_control_flags: 0,
            crc_type: CRC_NO,
            destination: dtn_none_view(),
            source: dtn_none_view(),
            report_to: dtn_none_view(),
            creation_timestamp: CreationTimestamp::spec_zero(),
            lifetime: 0,
            fragmentation_offset: 0,
            total_data_length: 0,
            crc: Seq::empty(),
        }
    }

    /// A version 7 block from `dtn:none` to `dtn:none`, with no flag, no
    /// checksum, timestamp 0 and lifetime 0.
    pub fn new() -> (r: PrimaryBlock)
        ensures
            r@ == Self::spec_new(),
    {
        let r = PrimaryBlock {
            version: DTN_VERSION,
            bundle_control_flags: 0,
            crc_type: CRC_NO,
            destination: EndpointID::new(),
            source: EndpointID::new(),
            report_to: EndpointID::new(),
            creation_timestamp: CreationTimestamp::new(),
            lifetime: 0,
            fragmentation_offset: 0,
            total_data_length: 0,
            crc: Vec::new(),
        };
        assert(r@.crc =~= Seq::<u8>::empty());
        r
    }

    /// Whether the bundle is a fragment.
    pub fn has_fragmentation(&self) -> (r: bool)
        ensures
            r == spec_has_fragmentation(self@),
    {
        self.bundle_control_flags & BUNDLE_IS_FRAGMENT != 0
    }

    /// The errors of the block, or `None` where it is valid.
    pub fn validation_errors(&self) -> (r: Option<Bp7ErrorList>)
        ensures
            err_list_view(r) == as_err_list(spec_primary_errors(self@)),
    {
        let mut errors: Bp7ErrorList = Vec::new();
        if self.version != DTN_VERSION {
            let mut msg = "Wrong version, ".to_owned();
            push_decimal(&mut msg, self.version as u64);
            string_push_str(&mut msg, " instead of ");
            push_decimal(&mut msg, DTN_VERSION as u64);
            errors.push(Bp7Error::PrimaryBlockError(msg));
        }
        let ghost e1 = errs_view(errors@);
        if let Some(mut err) = bundle_flags_validation_errors(self.bundle_control_flags) {
            errors.append(&mut err);
        }
        assert(errs_view(errors@) =~= e1 + spec_bundle_flags_errors(self.bundle_control_flags));
        if let Some(chk_err) = self.destination.validation_error() {
            errors.push(chk_err);
        }
        if let Some(chk_err) = self.source.validation_error() {
            errors.push(chk_err);
        }
        if let Some(chk_err) = self.report_to.validation_error() {
            errors.push(chk_err);
        }
        assert(errs_view(errors@) =~= spec_primary_errors(self@));
        if errors.len() != 0 {
            return Some(errors);
        }
        None
    }
}

impl Block for PrimaryBlock {
    open spec fn spec_crc_type(&self) -> CRCType {
        self.crc_type
    }

    open spec fn spec_crc(&self) -> Seq<u8> {
        self.crc@
    }

    fn has_crc(&self) -> (r: bool) {
        self.crc_type != CRC_NO
    }

    fn crc(&self) -> (r: ByteBuffer) {
        self.crc.clone()
    }

    fn set_crc_type(&mut self, crc_type: CRCType)
        ensures
            final(self)@ == (PrimaryBlockView { crc_type, ..old(self)@ }),
    {
        self.crc_type = crc_type;
    }

    fn crc_type(&self) -> (r: CRCType) {
        self.crc_type
    }

    fn set_crc(&mut self, crc: ByteBuffer)
        ensures
            final(self)@ == (PrimaryBlockView { crc: crc@, ..old(self)@ }),
    {
        self.crc = crc;
    }
}

/// The shape in which a primary block is encoded: the fragment fields only
/// for a fragment, the checksum only where there is a checksum type.
pub open spec fn spec_primary_to_variant(b: PrimaryBlockView) -> BlockVariantsView {
    if b.crc_type == CRC_NO && !spec_has_fragmentation(b) {
        BlockVariantsView::NotFragmentedAndNoCrc(
            b.version,
            b.bundle_control_flags,
            b.crc_type,
            b.destination,
            b.source,
            b.report_to,
            b.creation_timestamp,
            b.lifetime,
        )
    } else if b.crc_type == CRC_NO && spec_has_fragmentation(b) {
        BlockVariantsView::JustFragmented(
            b.version,
            b.bundle_control_flags,
            b.crc_type,
            b.destination,
            b.source,
            b.report_to,
            b.creation_timestamp,
            b.lifetime,
            b.fragmentation_offset,
            b.total_data_length,
        )
    } else if b.crc_type != CRC_NO && !spec_has_fragmentation(b) {
        BlockVariantsView::JustCrc(
            b.version,
            b.bundle_control_flags,
            b.crc_type,
            b.destination,
            b.source,
            b.report_to,
            b.creation_timestamp,
            b.lifetime,
            b.crc,
        )
    } else {
        BlockVariantsView::FragmentedAndCrc(
            b.version,
            b.bundle_control_flags,
            b.crc_type,
            b.destination,
            b.source,
            b.report_to,
            b.creation_timestamp,
            b.lifetime,
            b.fragmentation_offset,
            b.total_data_length,
            b.crc,
        )
    }
}

/// The block that a primary shape describes; missing fragment fields are 0
/// and a missing checksum is empty.
pub open spec fn spec_primary_from_variant(v: BlockVariantsView) -> PrimaryBlockView {
    match v {
        BlockVariantsView::NotFragmentedAndNoCrc(ver, f, c, d, s, r, t, l) => PrimaryBlockView {
            version: ver,
            bundle_control_flags: f,
            crc_type: c,
            destination: d,
            source: s,
            report_to: r,
            creation_timestamp: t,
            lifetime: l,
            fragmentation_offset: 0,
            total_data_length: 0,
            crc: Seq::empty(),
        },
        BlockVariantsView::JustFragmented(ver, f, c, d, s, r, t, l, o, n) => PrimaryBlockView {
            version: ver,
            bundle_control_flags: f,
            crc_type: c,
            destination: d,
            source: s,
            report_to: r,
            creation_timestamp: t,
            lifetime: l,
            fragmentation_offset: o,
            total_data_length: n,
            crc: Seq::empty(),
        },
        BlockVariantsView::JustCrc(ver, f, c, d, s, r, t, l, x) => PrimaryBlockView {
            version: ver,
            bundle_control_flags: f,
            crc_type: c,
            destination: d,
            source: s,
            report_to: r,
            creation_timestamp: t,
            lifetime: l,
            fragmentation_offset: 0,
            total_data_length: 0,
            crc: x,
        },
        BlockVariantsView::FragmentedAndCrc(ver, f, c, d, s, r, t, l, o, n, x) => PrimaryBlockView {
            version: ver,
            bundle_control_flags: f,
            crc_type: c,
            destination: d,
            source: s,
            report_to: r,
            creation_timestamp: t,
            lifetime: l,
            fragmentation_offset: o,
            total_data_length: n,
            crc: x,
        },
        _ => PrimaryBlock::spec_new(),
    }
}

pub open spec fn is_primary_variant(v: BlockVariantsView) -> bool {
    v is NotFragmentedAndNoCrc || v is JustFragmented || v is JustCrc || v is FragmentedAndCrc
}

impl PrimaryBlock {
    /// The shape in which the block is encoded.
    pub fn to_variant(&self) -> (r: BlockVariants)
        ensures
            r@ == spec_primary_to_variant(self@),
    {
        if self.crc_type == CRC_NO && !self.has_fragmentation() {
            BlockVariants::NotFragmentedAndNoCrc(
                self.version,
                self.bundle_control_flags,
                self.crc_type,
                self.destination.clone(),
                self.source.clone(),
                self.report_to.clone(),
                self.creation_timestamp,
                self.lifetime,
            )
        } else if self.crc_type == CRC_NO && self.has_fragmentation() {
            BlockVariants::JustFragmented(
                self.version,
                self.bundle_control_flags,
                self.crc_type,
                self.destination.clone(),
                self.source.clone(),
                self.report_to.clone(),
                self.creation_timestamp,
                self.lifetime,
                self.fragmentation_offset,
                self.total_data_length,
            )
        } else if self.crc_type != CRC_NO && !self.has_fragmentation() {
            BlockVariants::JustCrc(
                self.version,
                self.bundle_control_flags,
                self.crc_type,
                self.destination.clone(),
                self.source.clone(),
                self.report_to.clone(),
                self.creation_timestamp,
                self.lifetime,
                self.crc.clone(),
            )
        } else {
            BlockVariants::FragmentedAndCrc(
                self.version,
                self.bundle_control_flags,
                self.crc_type,
                self.destination.clone(),
                self.source.clone(),
                self.report_to.clone(),
                self.creation_timestamp,
                self.lifetime,
                self.fragmentation_offset,
                self.total_data_length,
                self.crc.clone(),
            )
        }
    }

    /// The block that a primary shape describes.
    pub fn from(item: BlockVariants) -> (r: PrimaryBlock)
        requires
            is_primary_variant(item@),
        ensures
            r@ == spec_primary_from_variant(item@),
    {
        let empty: Vec<u8> = Vec::new();
        assert(empty@ =~= Seq::<u8>::empty());
        let r = match item {
            BlockVariants::NotFragmentedAndNoCrc(
                version,
                bundle_control_flags,
                crc_type,
                destination,
                source,
                report_to,
                creation_timestamp,
                lifetime,
            ) => PrimaryBlock {
                version,
                bundle_control_flags,
                crc_type,
                destination,
                source,
                report_to,
                creation_timestamp,
                lifetime,
                fragmentation_offset: 0,
                total_data_length: 0,
                crc: empty,
            },
            BlockVariants::JustFragmented(
                version,
                bundle_control_flags,
                crc_type,
                destination,
                source,
                report_to,
                creation_timestamp,
                lifetime,
                fragmentation_offset,
                total_data_length,
            ) => PrimaryBlock {
                version,
                bundle_control_flags,
                crc_type,
                destination,
                source,
                report_to,
                creation_timestamp,
                lifetime,
                fragmentation_offset,
                total_data_length,
                crc: empty,
            },
            BlockVariants::JustCrc(
                version,
                bundle_control_flags,
                crc_type,
                destination,
                source,
                report_to,
                creation_timestamp,
                lifetime,
                crc,
            ) => PrimaryBlock {
                version,
                bundle_control_flags,
                crc_type,
                destination,
                source,
                report_to,
                creation_timestamp,
                lifetime,
                fragmentation_offset: 0,
                total_data_length: 0,
                crc,
            },
            BlockVariants::FragmentedAndCrc(
                version,
                bundle_control_flags,
                crc_type,
                destination,
                source,
                report_to,
                creation_timestamp,
                lifetime,
                fragmentation_offset,
                total_data_length,
                crc,
            ) => PrimaryBlock {
                version,
                bundle_control_flags,
                crc_type,
                destination,
                source,
                report_to,
                creation_timestamp,
                lifetime,
                fragmentation_offset,
                total_data_length,
                crc,
            },
            _ => PrimaryBlock::new(),
        };
        r
    }
}

/// The block as it reads back after encoding: fragment fields 0 unless it is
/// a fragment, checksum empty unless it has a checksum type.
pub open spec fn spec_primary_normal(b: PrimaryBlockView) -> PrimaryBlockView {
    PrimaryBlockView {
        fragmentation_offset: if spec_has_fragmentation(b) {
            b.fragmentation_offset
        } else {
            0
        },
        total_data_length: if spec_has_fragmentation(b) {
            b.total_data_length
        } else {
            0
        },
        crc: if b.crc_type == CRC_NO {
            Seq::empty()
        } else {
            b.crc
        },
        ..b
    }
}

/// Encoding a primary block and reading it back gives the block, up to the
/// fields that its flags and checksum type leave out.
pub proof fn law_primary_variant_roundtrip(b: PrimaryBlockView)
    ensures
        is_primary_variant(spec_primary_to_variant(b)),
        spec_primary_from_variant(spec_primary_to_variant(b)) == spec_primary_normal(b),
{
}

/// A block that already has the shape of its encoding reads back unchanged,
/// and encoding is stable: encoding what was read back gives the same shape.
pub proof fn law_primary_variant_stable(b: PrimaryBlockView)
    ensures
        spec_primary_normal(spec_primary_normal(b)) == spec_primary_normal(b),
        spec_primary_to_variant(spec_primary_from_variant(spec_primary_to_variant(b)))
            == spec_primary_to_variant(b),
{
}

/// A primary block from `src` to `dst`, created at `creation_timestamp` and
/// living `lifetime`: bundle protocol version 7, no flags, no checksum, no
/// fragment, reports to the source. Both endpoints must be URIs of an
/// endpoint.
pub fn new_primary_block(dst: String, src: String, creation_timestamp: CreationTimestamp, lifetime: u64) -> (r: PrimaryBlock)
    requires
        spec_eid_parse(dst@) is Some,
        spec_eid_parse(src@) is Some,
    ensures
        Some(r@.destination) == spec_eid_parse(dst@),
        Some(r@.source) == spec_eid_parse(src@),
        r@.report_to == r@.source,
        r@.version == DTN_VERSION,
        r@.bundle_control_flags == 0,
        r@.crc_type == CRC_NO,
        r@.creation_timestamp == creation_timestamp,
        r@.lifetime == lifetime,
        r@.fragmentation_offset == 0,
        r@.total_data_length == 0,
        r@.crc == Seq::<u8>::empty(),
{
    let dst_eid = EndpointID::from(dst);
    let src_eid = EndpointID::from(src);
    let r = PrimaryBlock {
        version: DTN_VERSION,
        bundle_control_flags: 0,
        crc_type: CRC_NO,
        destination: dst_eid,
        source: src_eid.clone(),
        report_to: src_eid,
        creation_timestamp,
        lifetime,
        fragmentation_offset: 0,
        total_data_length: 0,
        crc: Vec::new(),
    };
    assert(r@.crc =~= Seq::<u8>::empty());
    r
}

/// `new_primary_block` where both texts are URIs of an endpoint; `None`
/// where one is not.
pub fn try_new_primary_block(dst: String, src: String, creation_timestamp: CreationTimestamp, lifetime: u64) -> (r: Option<PrimaryBlock>)
    ensures
        match r {
            Some(b) => {
                &&& Some(b@.destination) == spec_eid_parse(dst@)
                &&& Some(b@.source) == spec_eid_parse(src@)
                &&& b@.report_to == b@.source
                &&& b@.version == DTN_VERSION
                &&& b@.bundle_control_flags == 0
                &&& b@.crc_type == CRC_NO
                &&& b@.creation_timestamp == creation_timestamp
                &&& b@.lifetime == lifetime
                &&& b@.fragmentation_offset == 0
                &&& b@.total_data_length == 0
                &&& b@.crc == Seq::<u8>::empty()
            },
            None => spec_eid_parse(dst@) is None || spec_eid_parse(src@) is None,
        },
{
    let dst_ok = EndpointID::try_from(dst.clone()).is_some();
    let src_ok = EndpointID::try_from(src.clone()).is_some();
    if dst_ok && src_ok {
        Some(new_primary_block(dst, src, creation_timestamp, lifetime))
    } else {
        None
    }
}

/// The primary block as its checksum is computed over it: with a checksum
/// of zeros where it has a checksum type.
pub open spec fn primary_zeroed(b: PrimaryBlockView) -> PrimaryBlockView {
    if b.crc_type == CRC_NO {
        b
    } else {
        PrimaryBlockView { crc: Seq::new(crc_len(b.crc_type), |i: int| 0u8), ..b }
    }
}

/// A primary block's checksum checks once it is set: for any encoding `enc`
/// of blocks with their checksum zeroed, the block that gets the checksum
/// computed (`calculate_crc`) over `enc` of the block zeroed is the same
/// block once zeroed, so `check_crc` over `enc` of it succeeds; and
/// `check_crc` of the block itself succeeds exactly when its checksum
/// already was that one.
pub proof fn law_primary_crc_checks(b: PrimaryBlockView, enc: spec_fn(PrimaryBlockView) -> Seq<u8>)
    requires
        b.crc_type == CRC_16 || b.crc_type == CRC_32,
    ensures
        ({
            let c = spec_crc_of(b.crc_type, enc(primary_zeroed(b)));
            let b2 = PrimaryBlockView { crc: c, ..b };
            &&& primary_zeroed(b2) == primary_zeroed(b)
            &&& b2.crc_type != CRC_NO && b2.crc == spec_crc_of(b2.crc_type, enc(primary_zeroed(b2)))
            &&& (b.crc_type != CRC_NO && b.crc == spec_crc_of(b.crc_type, enc(primary_zeroed(b)))) <==> b.crc == c
        }),
{
    let c = spec_crc_of(b.crc_type, enc(primary_zeroed(b)));
    let b2 = PrimaryBlockView { crc: c, ..b };
    assert(primary_zeroed(b2) =~= primary_zeroed(b));
}

} // verus!
