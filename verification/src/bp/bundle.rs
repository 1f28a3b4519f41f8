//! Types shared by the blocks of a bundle: versions, flags and errors.
use vstd::prelude::*;
use crate::bp::crc::CRCType;
use crate::bp::canonical::{CanonicalBlockType, CanonicalData, CanonicalDataView};
use crate::bp::dtntime::CreationTimestamp;
use crate::bp::eid::{EndpointID, EidView};

verus! {

pub type ByteBuffer = Vec<u8>;

pub type DtnVersionType = u32;

/// The version of the Bundle Protocol.
pub const DTN_VERSION: DtnVersionType = 7;

pub type LifetimeType = u64;

pub type FragOffsetType = u64;

pub type TotalDataLengthType = u64;

/// Block processing control flags.
pub type BlockControlFlags = u8;

/// This block must be replicated in every fragment.
pub const BLOCK_REPLICATE: BlockControlFlags = 0x01;

/// Transmit a status report if the block cannot be processed.
pub const BLOCK_STATUS_REPORT: BlockControlFlags = 0x02;

/// Delete the bundle if the block cannot be processed.
pub const BLOCK_DELETE_BUNDLE: BlockControlFlags = 0x04;

/// Discard the block if it cannot be processed.
pub const BLOCK_REMOVE: BlockControlFlags = 0x10;

/// Reserved bits 3, 5 and 6.
pub const BLOCK_CFRESERVED_FIELDS: BlockControlFlags = 0x68;

/// Bundle processing control flags.
pub type BundleControlFlags = u64;

pub const BUNDLE_STATUS_REQUEST_DELETION: BundleControlFlags = 0x040000;

pub const BUNDLE_STATUS_REQUEST_DELIVERY: BundleControlFlags = 0x020000;

pub const BUNDLE_STATUS_REQUEST_FORWARD: BundleControlFlags = 0x010000;

pub const BUNDLE_STATUS_REQUEST_RECEPTION: BundleControlFlags = 0x004000;

pub const BUNDLE_REQUEST_STATUS_TIME: BundleControlFlags = 0x000040;

pub const BUNDLE_REQUEST_USER_APPLICATION_ACK: BundleControlFlags = 0x000020;

pub const BUNDLE_MUST_NOT_FRAGMENTED: BundleControlFlags = 0x000004;

pub const BUNDLE_ADMINISTRATIVE_RECORD_PAYLOAD: BundleControlFlags = 0x000002;

pub const BUNDLE_IS_FRAGMENT: BundleControlFlags = 0x000001;

/// Reserved bits 3-4, 7-13, 15 and 19-20.
pub const BUNDLE_CFRESERVED_FIELDS: BundleControlFlags = 0x18BF98;

/// What makes a bundle or one of its parts invalid.
#[derive(Debug, Clone, PartialEq, Eq)]
pub enum Bp7Error {
    CanonicalBlockError(String),
    PrimaryBlockError(String),
    EIDError(String),
    DtnTimeError(String),
    CrcError(String),
    BundleError(String),
    BundleControlFlagsError(String),
    BlockControlFlagsError(String),
}

/// `Bp7Error` with its message as a sequence of characters.
pub enum Bp7ErrorView {
    CanonicalBlockError(Seq<char>),
    PrimaryBlockError(Seq<char>),
    EIDError(Seq<char>),
    DtnTimeError(Seq<char>),
    CrcError(Seq<char>),
    BundleError(Seq<char>),
    BundleControlFlagsError(Seq<char>),
    BlockControlFlagsError(Seq<char>),
}

impl View for Bp7Error {
    type V = Bp7ErrorView;

    open spec fn view(&self) -> Bp7ErrorView {
        match self {
            Bp7Error::CanonicalBlockError(m) => Bp7ErrorView::CanonicalBlockError(m@),
            Bp7Error::PrimaryBlockError(m) => Bp7ErrorView::PrimaryBlockError(m@),
            Bp7Error::EIDError(m) => Bp7ErrorView::EIDError(m@),
            Bp7Error::DtnTimeError(m) => Bp7ErrorView::DtnTimeError(m@),
            Bp7Error::CrcError(m) => Bp7ErrorView::CrcError(m@),
            Bp7Error::BundleError(m) => Bp7ErrorView::BundleError(m@),
            Bp7Error::BundleControlFlagsError(m) => Bp7ErrorView::BundleControlFlagsError(m@),
            Bp7Error::BlockControlFlagsError(m) => Bp7ErrorView::BlockControlFlagsError(m@),
        }
    }
}

pub type Bp7ErrorList = Vec<Bp7Error>;

pub open spec fn err_opt_view(r: Option<Bp7Error>) -> Option<Bp7ErrorView> {
    match r {
        Some(e) => Some(e@),
        None => None,
    }
}

pub open spec fn errs_view(errs: Seq<Bp7Error>) -> Seq<Bp7ErrorView> {
    errs.map_values(|e: Bp7Error| e@)
}

/// `None` for no error, the errors otherwise.
pub open spec fn err_list_view(r: Option<Bp7ErrorList>) -> Option<Seq<Bp7ErrorView>> {
    match r {
        Some(errs) => Some(errs_view(errs@)),
        None => None,
    }
}

/// The list of errors `errs`, where `None` stands for the empty one.
pub open spec fn as_err_list(errs: Seq<Bp7ErrorView>) -> Option<Seq<Bp7ErrorView>> {
    if errs.len() == 0 {
        None
    } else {
        Some(errs)
    }
}

pub open spec fn opt_seq<A>(o: Option<A>) -> Seq<A> {
    match o {
        Some(a) => seq![a],
        None => Seq::empty(),
    }
}

pub open spec fn reserved_bits_msg() -> Seq<char> {
    "Given flag contains reserved bits"@
}

pub open spec fn admin_record_msg() -> Seq<char> {
    "\"payload is administrative record => no status report request flags\" failed"@
}

/// Whether any bit of `f` is set in `flags`.
pub fn has(flags: BundleControlFlags, f: BundleControlFlags) -> (r: bool)
    ensures
        r == (flags & f != 0),
{
    flags & f != 0
}

pub open spec fn spec_block_flags_error(flags: BlockControlFlags) -> Option<Bp7ErrorView> {
    if flags & BLOCK_CFRESERVED_FIELDS != 0 {
        Some(Bp7ErrorView::BlockControlFlagsError(reserved_bits_msg()))
    } else {
        None
    }
}

/// The error of block control flags that set a reserved bit.
pub fn block_flags_validation_error(flags: BlockControlFlags) -> (r: Option<Bp7Error>)
    ensures
        err_opt_view(r) == spec_block_flags_error(flags),
{
    if flags & BLOCK_CFRESERVED_FIELDS != 0 {
        Some(Bp7Error::BlockControlFlagsError("Given flag contains reserved bits".to_owned()))
    } else {
        None
    }
}

/// Whether the flags mark an administrative record and ask for a status
/// report, which RFC 9171 forbids.
pub open spec fn admin_record_conflict(flags: BundleControlFlags) -> bool {
    flags & BUNDLE_ADMINISTRATIVE_RECORD_PAYLOAD != 0 && (flags & BUNDLE_STATUS_REQUEST_RECEPTION
        != 0 || flags & BUNDLE_STATUS_REQUEST_FORWARD != 0 || flags
        & BUNDLE_STATUS_REQUEST_DELIVERY != 0 || flags & BUNDLE_STATUS_REQUEST_DELETION != 0)
}

/// The errors of the bundle control flags, in order.
pub open spec fn spec_bundle_flags_errors(flags: BundleControlFlags) -> Seq<Bp7ErrorView> {
    (if flags & BUNDLE_CFRESERVED_FIELDS != 0 {
        seq![Bp7ErrorView::BundleControlFlagsError(reserved_bits_msg())]
    } else {
        Seq::empty()
    }) + (if admin_record_conflict(flags) {
        seq![Bp7ErrorView::BundleControlFlagsError(admin_record_msg())]
    } else {
        Seq::empty()
    })
}

/// The errors of bundle control flags: a reserved bit set, and status
/// reports asked for an administrative record.
pub fn bundle_flags_validation_errors(flags: BundleControlFlags) -> (r: Option<Bp7ErrorList>)
    ensures
        err_list_view(r) == as_err_list(spec_bundle_flags_errors(flags)),
{
    let mut errors: Bp7ErrorList = Vec::new();
    if flags & BUNDLE_CFRESERVED_FIELDS != 0 {
        errors.push(Bp7Error::BundleControlFlagsError("Given flag contains reserved bits".to_owned()));
    }
    let admin_rec_check = !(flags & BUNDLE_ADMINISTRATIVE_RECORD_PAYLOAD != 0) || (!(flags
        & BUNDLE_STATUS_REQUEST_RECEPTION != 0) && !(flags & BUNDLE_STATUS_REQUEST_FORWARD != 0)
        && !(flags & BUNDLE_STATUS_REQUEST_DELIVERY != 0) && !(flags
        & BUNDLE_STATUS_REQUEST_DELETION != 0));
    if !admin_rec_check {
        errors.push(
            Bp7Error::BundleControlFlagsError(
                "\"payload is administrative record => no status report request flags\" failed".to_owned(),
            ),
        );
    }
    assert(errs_view(errors@) =~= spec_bundle_flags_errors(flags));
    if errors.len() != 0 {
        return Some(errors);
    }
    None
}

/// The checksum part of a block, common to primary and canonical blocks.
pub trait Block: Sized {
    spec fn spec_crc_type(&self) -> CRCType;

    spec fn spec_crc(&self) -> Seq<u8>;

    fn has_crc(&self) -> (r: bool)
        ensures
            r == (self.spec_crc_type() != 0),
    ;

    fn crc(&self) -> (r: ByteBuffer)
        ensures
            r@ == self.spec_crc(),
    ;

    fn set_crc_type(&mut self, crc_type: CRCType)
        ensures
            final(self).spec_crc_type() == crc_type,
            final(self).spec_crc() == old(self).spec_crc(),
    ;

    fn crc_type(&self) -> (r: CRCType)
        ensures
            r == self.spec_crc_type(),
    ;

    fn set_crc(&mut self, crc: ByteBuffer)
        ensures
            final(self).spec_crc() == crc@,
            final(self).spec_crc_type() == old(self).spec_crc_type(),
    ;
}

/// The shapes in which blocks are encoded: the primary block with or
/// without fragment fields and checksum, and canonical blocks with or without
/// checksum.
#[derive(Debug, Clone, PartialEq)]
pub enum BlockVariants {
    NotFragmentedAndNoCrc(
        DtnVersionType,
        BundleControlFlags,
        CRCType,
        EndpointID,
        EndpointID,
        EndpointID,
        CreationTimestamp,
        LifetimeType,
    ),
    JustFragmented(
        DtnVersionType,
        BundleControlFlags,
        CRCType,
        EndpointID,
        EndpointID,
        EndpointID,
        CreationTimestamp,
        LifetimeType,
        FragOffsetType,
        TotalDataLengthType,
    ),
    JustCrc(
        DtnVersionType,
        BundleControlFlags,
        CRCType,
        EndpointID,
        EndpointID,
        EndpointID,
        CreationTimestamp,
        LifetimeType,
        ByteBuffer,
    ),
    FragmentedAndCrc(
        DtnVersionType,
        BundleControlFlags,
        CRCType,
        EndpointID,
        EndpointID,
        EndpointID,
        CreationTimestamp,
        LifetimeType,
        FragOffsetType,
        TotalDataLengthType,
        ByteBuffer,
    ),
    CanonicalWithoutCrc(CanonicalBlockType, u64, BlockControlFlags, CRCType, CanonicalData),
    Canonical(CanonicalBlockType, u64, BlockControlFlags, CRCType, CanonicalData, ByteBuffer),
}

/// `BlockVariants` with its texts and bytes as sequences.
pub enum BlockVariantsView {
    NotFragmentedAndNoCrc(
        DtnVersionType,
        BundleControlFlags,
        CRCType,
        EidView,
        EidView,
        EidView,
        CreationTimestamp,
        LifetimeType,
    ),
    JustFragmented(
        DtnVersionType,
        BundleControlFlags,
        CRCType,
        EidView,
        EidView,
        EidView,
        CreationTimestamp,
        LifetimeType,
        FragOffsetType,
        TotalDataLengthType,
    ),
    JustCrc(
        DtnVersionType,
        BundleControlFlags,
        CRCType,
        EidView,
        EidView,
        EidView,
        CreationTimestamp,
        LifetimeType,
        Seq<u8>,
    ),
    FragmentedAndCrc(
        DtnVersionType,
        BundleControlFlags,
        CRCType,
        EidView,
        EidView,
        EidView,
        CreationTimestamp,
        LifetimeType,
        FragOffsetType,
        TotalDataLengthType,
        Seq<u8>,
    ),
    CanonicalWithoutCrc(CanonicalBlockType, u64, BlockControlFlags, CRCType, CanonicalDataView),
    Canonical(CanonicalBlockType, u64, BlockControlFlags, CRCType, CanonicalDataView, Seq<u8>),
}

impl View for BlockVariants {
    type V = BlockVariantsView;

    open spec fn view(&self) -> BlockVariantsView {
        match self {
            BlockVariants::NotFragmentedAndNoCrc(v, f, c, d, s, r, t, l) =>
                BlockVariantsView::NotFragmentedAndNoCrc(*v, *f, *c, d@, s@, r@, *t, *l),
            BlockVariants::JustFragmented(v, f, c, d, s, r, t, l, o, n) =>
                BlockVariantsView::JustFragmented(*v, *f, *c, d@, s@, r@, *t, *l, *o, *n),
            BlockVariants::JustCrc(v, f, c, d, s, r, t, l, x) => BlockVariantsView::JustCrc(
                *v,
                *f,
                *c,
                d@,
                s@,
                r@,
                *t,
                *l,
                x@,
            ),
            BlockVariants::FragmentedAndCrc(v, f, c, d, s, r, t, l, o, n, x) =>
                BlockVariantsView::FragmentedAndCrc(*v, *f, *c, d@, s@, r@, *t, *l, *o, *n, x@),
            BlockVariants::CanonicalWithoutCrc(t, n, f, c, d) =>
                BlockVariantsView::CanonicalWithoutCrc(*t, *n, *f, *c, d@),
            BlockVariants::Canonical(t, n, f, c, d, x) => BlockVariantsView::Canonical(
                *t,
                *n,
                *f,
                *c,
                d@,
                x@,
            ),
        }
    }
}

} // verus!
