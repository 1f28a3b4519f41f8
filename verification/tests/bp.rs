use dtn7::bp::bundle::{
    block_flags_validation_error, bundle_flags_validation_errors, Block, Bp7Error,
    BUNDLE_ADMINISTRATIVE_RECORD_PAYLOAD, BUNDLE_IS_FRAGMENT, BUNDLE_MUST_NOT_FRAGMENTED,
    BUNDLE_STATUS_REQUEST_DELIVERY, BLOCK_DELETE_BUNDLE, BLOCK_REPLICATE,
};
use dtn7::bp::canonical::{
    new_bundle_age_block, new_canonical_block, new_hop_count_block, new_payload_block,
    new_previous_node_block, CanonicalBlock, CanonicalData, BUNDLE_AGE_BLOCK, HOP_COUNT_BLOCK,
    PAYLOAD_BLOCK, PREVIOUS_NODE_BLOCK,
};
use dtn7::bp::crc::{
    calculate_crc, check_crc, empty_crc, reset_crc, CRCFuncations, CRC_16, CRC_32, CRC_NO,
};
use dtn7::bp::dtntime::{dtn_time_at, dtn_time_from_unix, dtn_time_now, CreationTimestamp, DtnTimeHelpers, SECONDS1970_TO2K};
use dtn7::bp::eid::{EndpointID, IpnAddress, ENDPOINT_URI_SCHEME_DTN, ENDPOINT_URI_SCHEME_IPN};
use dtn7::bp::primary::{new_primary_block, try_new_primary_block, PrimaryBlock};

#[test]
fn eid_constructors_and_text() {
    assert_eq!(EndpointID::new().to_string(), "dtn://none");
    assert_eq!(EndpointID::with_dtn_none().to_string(), "dtn://none");
    let d = EndpointID::with_dtn("node1/incoming".to_string());
    assert_eq!(d.to_string(), "dtn://node1/incoming");
    assert_eq!(d.get_scheme(), "dtn");
    assert_eq!(
        d.get_scheme_specific_part_dtn(),
        Some("node1/incoming".to_string())
    );
    let i = EndpointID::with_ipn(IpnAddress(23, 42));
    assert_eq!(i.get_scheme(), "ipn");
    assert_eq!(i.get_scheme_specific_part_dtn(), None);
}

#[test]
fn eid_parse_dtn_and_ipn() {
    let d = EndpointID::try_from("dtn://node1/incoming".to_string()).unwrap();
    assert_eq!(d, EndpointID::Dtn(ENDPOINT_URI_SCHEME_DTN, "node1/incoming".to_string()));
    let n = EndpointID::try_from("dtn://none".to_string()).unwrap();
    assert_eq!(n, EndpointID::DtnNone(ENDPOINT_URI_SCHEME_DTN, 0));
    let i = EndpointID::try_from("ipn://23.42".to_string()).unwrap();
    assert_eq!(i, EndpointID::Ipn(ENDPOINT_URI_SCHEME_IPN, IpnAddress(23, 42)));
    assert_eq!(EndpointID::from("ipn://1.2".to_string()), EndpointID::with_ipn(IpnAddress(1, 2)));
}

#[test]
fn eid_from_doc_examples() {
    assert_eq!(
        EndpointID::from("dtn://none".to_string()),
        EndpointID::DtnNone(ENDPOINT_URI_SCHEME_DTN, 0)
    );
    assert_eq!(
        EndpointID::from("dtn:none".to_string()),
        EndpointID::DtnNone(ENDPOINT_URI_SCHEME_DTN, 0)
    );
    assert_eq!(
        EndpointID::from("dtn://node1/endpoint1".to_string()),
        EndpointID::Dtn(ENDPOINT_URI_SCHEME_DTN, "node1/endpoint1".to_string())
    );
    assert_eq!(
        EndpointID::from("dtn:node1/endpoint1".to_string()),
        EndpointID::Dtn(ENDPOINT_URI_SCHEME_DTN, "node1/endpoint1".to_string())
    );
    assert_eq!(
        EndpointID::from("dtn://node1/".to_string()),
        EndpointID::Dtn(ENDPOINT_URI_SCHEME_DTN, "node1".to_string())
    );
}

#[test]
fn eid_validation_doc_examples() {
    assert!(EndpointID::Ipn(2, IpnAddress(23, 42)).validation_error().is_none());
    assert!(EndpointID::Ipn(1, IpnAddress(23, 42)).validation_error().is_some());
    assert!(EndpointID::Ipn(2, IpnAddress(0, 0)).validation_error().is_some());
}

#[test]
fn eid_parse_refusals() {
    assert!(EndpointID::try_from("not a url".to_string()).is_none());
    assert_eq!(
        EndpointID::try_from("http://node1".to_string()),
        Some(EndpointID::with_dtn_none())
    );
    assert!(EndpointID::try_from("ipn://23".to_string()).is_none());
    assert!(EndpointID::try_from("ipn://a.b".to_string()).is_none());
}

#[test]
fn eid_validation_errors() {
    assert_eq!(EndpointID::with_dtn("node".to_string()).validation_error(), None);
    assert_eq!(
        EndpointID::Ipn(ENDPOINT_URI_SCHEME_DTN, IpnAddress(1, 1)).validation_error(),
        Some(Bp7Error::EIDError("Wrong URI scheme code for IPN".to_string()))
    );
    assert_eq!(
        EndpointID::Ipn(ENDPOINT_URI_SCHEME_IPN, IpnAddress(0, 1)).validation_error(),
        Some(Bp7Error::EIDError(
            "IPN's node and service number must be >= 1".to_string()
        ))
    );
    assert_eq!(
        EndpointID::Dtn(ENDPOINT_URI_SCHEME_IPN, "x".to_string()).validation_error(),
        None
    );
    assert_eq!(
        EndpointID::DtnNone(ENDPOINT_URI_SCHEME_IPN, 0).validation_error(),
        Some(Bp7Error::EIDError("Wrong URI scheme code for DTN".to_string()))
    );
    assert_eq!(
        EndpointID::DtnNone(ENDPOINT_URI_SCHEME_DTN, 1).validation_error(),
        Some(Bp7Error::EIDError(
            "dtn none must have uint(0) set as address".to_string()
        ))
    );
}

#[test]
fn flag_validation() {
    assert_eq!(block_flags_validation_error(BLOCK_REPLICATE | BLOCK_DELETE_BUNDLE), None);
    assert_eq!(
        block_flags_validation_error(0x08),
        Some(Bp7Error::BlockControlFlagsError(
            "Given flag contains reserved bits".to_string()
        ))
    );
    assert!(bundle_flags_validation_errors(BUNDLE_MUST_NOT_FRAGMENTED).is_none());
    let errs = bundle_flags_validation_errors(0x08).unwrap();
    assert_eq!(
        errs,
        vec![Bp7Error::BundleControlFlagsError(
            "Given flag contains reserved bits".to_string()
        )]
    );
    let errs = bundle_flags_validation_errors(
        BUNDLE_ADMINISTRATIVE_RECORD_PAYLOAD | BUNDLE_STATUS_REQUEST_DELIVERY,
    )
    .unwrap();
    assert_eq!(errs.len(), 1);
}

#[test]
fn canonical_block_constructors() {
    let p = new_payload_block(0, vec![1, 2, 3]);
    assert_eq!(p.block_type, PAYLOAD_BLOCK);
    assert_eq!(p.block_number, 0);
    assert_eq!(p.data, CanonicalData::Data(vec![1, 2, 3]));
    let h = new_hop_count_block(2, 0, 32);
    assert_eq!(h.block_type, HOP_COUNT_BLOCK);
    assert_eq!(h.block_number, 2);
    assert_eq!(h.data, CanonicalData::HopCount(0, 32));
    let a = new_bundle_age_block(3, 0, 1000);
    assert_eq!(a.block_type, BUNDLE_AGE_BLOCK);
    assert_eq!(a.data, CanonicalData::BundleAge(1000));
    let n = new_previous_node_block(4, 0, EndpointID::with_dtn("n".to_string()));
    assert_eq!(n.block_type, PREVIOUS_NODE_BLOCK);
    assert_eq!(
        n.data,
        CanonicalData::PreviousNode(EndpointID::with_dtn("n".to_string()))
    );
    let c = new_canonical_block(PAYLOAD_BLOCK, 0, 0, CanonicalData::Data(vec![]));
    assert_eq!(c.crc_type, CRC_NO);
    assert!(c.validation_errors().is_none());
}

#[test]
fn canonical_block_validation() {
    let wrong = new_canonical_block(PAYLOAD_BLOCK, 1, 0, CanonicalData::BundleAge(1));
    assert_eq!(
        wrong.extension_validation_error(),
        Some(Bp7Error::CanonicalBlockError(
            "Payload data not matching payload type".to_string()
        ))
    );
    let unknown = new_canonical_block(200, 2, 0, CanonicalData::Data(vec![]));
    assert_eq!(
        unknown.extension_validation_error(),
        Some(Bp7Error::CanonicalBlockError(
            "Payload data not matching payload type".to_string()
        ))
    );
    let numbered = new_canonical_block(PAYLOAD_BLOCK, 1, 0, CanonicalData::Data(vec![]));
    assert_eq!(
        numbered.extension_validation_error(),
        Some(Bp7Error::CanonicalBlockError(
            "Payload Block's block number is not zero".to_string()
        ))
    );
    let bad_prev = new_previous_node_block(
        2,
        0,
        EndpointID::DtnNone(ENDPOINT_URI_SCHEME_DTN, 3),
    );
    assert_eq!(
        bad_prev.extension_validation_error(),
        Some(Bp7Error::EIDError(
            "dtn none must have uint(0) set as address".to_string()
        ))
    );
    let reserved = new_canonical_block(PAYLOAD_BLOCK, 0, 0x08, CanonicalData::Data(vec![]));
    let errs = reserved.validation_errors().unwrap();
    assert_eq!(
        errs[0],
        Bp7Error::BlockControlFlagsError("Given flag contains reserved bits".to_string())
    );
}

#[test]
fn canonical_data_access() {
    let mut b = new_payload_block(0, vec![9]);
    assert_eq!(*b.get_data(), CanonicalData::Data(vec![9]));
    b.set_data(CanonicalData::Data(vec![7, 7]));
    assert_eq!(*b.get_data(), CanonicalData::Data(vec![7, 7]));
}

#[test]
fn canonical_variant_roundtrip() {
    let b = new_hop_count_block(2, BLOCK_REPLICATE, 16);
    let back = CanonicalBlock::from(b.to_variant());
    assert_eq!(back, b);
    let mut c = new_payload_block(0, vec![1, 2]);
    c.set_crc_type(CRC_32);
    c.set_crc(vec![1, 2, 3, 4]);
    assert_eq!(CanonicalBlock::from(c.to_variant()), c);
}

#[test]
fn primary_block_defaults_and_validation() {
    let p = PrimaryBlock::new();
    assert_eq!(p.version, 7);
    assert!(!p.has_fragmentation());
    assert!(p.validation_errors().is_none());
    let mut q = PrimaryBlock::new();
    q.version = 6;
    q.bundle_control_flags = BUNDLE_IS_FRAGMENT;
    assert!(q.has_fragmentation());
    let errs = q.validation_errors().unwrap();
    assert_eq!(
        errs[0],
        Bp7Error::PrimaryBlockError("Wrong version, 6 instead of 7".to_string())
    );
}

#[test]
fn primary_variant_roundtrip() {
    let mut p = PrimaryBlock::new();
    p.destination = EndpointID::with_dtn("dst".to_string());
    p.source = EndpointID::with_ipn(IpnAddress(5, 6));
    p.lifetime = 3600;
    p.creation_timestamp = CreationTimestamp::with_time_and_seq(700, 3);
    assert_eq!(PrimaryBlock::from(p.to_variant()), p);
    p.bundle_control_flags = BUNDLE_IS_FRAGMENT;
    p.fragmentation_offset = 10;
    p.total_data_length = 100;
    p.crc_type = CRC_16;
    p.crc = vec![0xab, 0xcd];
    assert_eq!(PrimaryBlock::from(p.to_variant()), p);
}

#[test]
fn crc_values() {
    let data = b"123456789";
    assert_eq!(calculate_crc(CRC_16, data), vec![0x90, 0x6e]);
    assert_eq!(calculate_crc(CRC_32, data), vec![0xe3, 0x06, 0x92, 0x83]);
    assert_eq!(calculate_crc(CRC_NO, data), Vec::<u8>::new());
    assert_eq!(CRC_NO.to_string(), "no");
    assert_eq!(CRC_16.to_string(), "16");
    assert_eq!(CRC_32.to_string(), "32");
    assert_eq!(7u8.to_string(), "unknown");
}

#[test]
fn empty_crc_by_type() {
    assert_eq!(empty_crc(CRC_NO).unwrap(), Vec::<u8>::new());
    assert_eq!(empty_crc(CRC_16).unwrap(), vec![0, 0]);
    assert_eq!(empty_crc(CRC_32).unwrap(), vec![0, 0, 0, 0]);
    assert_eq!(
        empty_crc(3),
        Err(Bp7Error::CrcError("Unknown CRC type".to_string()))
    );
}

#[test]
fn check_and_reset_crc() {
    let data = b"123456789";
    let mut b = new_payload_block(0, vec![1]);
    assert!(!check_crc(&b, data));
    b.set_crc_type(CRC_16);
    b.set_crc(vec![0x90, 0x6e]);
    assert!(check_crc(&b, data));
    assert!(!check_crc(&b, b"12345678"));
    reset_crc(&mut b);
    assert_eq!(b.crc(), vec![0, 0]);
    assert!(b.has_crc());
}

#[test]
fn dtn_time() {
    assert_eq!(dtn_time_from_unix(SECONDS1970_TO2K + 5), 5);
    assert_eq!(0u64.unix(), SECONDS1970_TO2K);
    assert_eq!(0u64.string(), "2000-01-01T00:00:00+00:00");
    let ts = CreationTimestamp::with_time_and_seq(60, 2);
    assert_eq!(ts.get_dtntime(), 60);
    assert_eq!(ts.get_seqno(), 2);
    assert_eq!(ts.to_string(), "2000-01-01T00:01:00+00:00 2");
    assert_eq!(CreationTimestamp::new(), CreationTimestamp::with_time_and_seq(0, 0));
}

#[test]
fn dtn_time_of_clock_readings() {
    assert_eq!(dtn_time_at(Some(SECONDS1970_TO2K + 42)), 42);
    assert_eq!(dtn_time_at(Some(SECONDS1970_TO2K)), 0);
    assert_eq!(dtn_time_at(Some(1000)), 0);
    assert_eq!(dtn_time_at(None), 0);
    // The clock of any machine running this stands after the year 2020.
    assert!(dtn_time_now() > 20 * 365 * 24 * 3600);
}

#[test]
fn primary_blocks_from_endpoint_texts() {
    let ts = CreationTimestamp::with_time_and_seq(5, 1);
    let pb = new_primary_block("dtn://node2/inbox".to_string(), "dtn://node1/".to_string(), ts, 3600);
    assert_eq!(pb.destination, EndpointID::with_dtn("node2/inbox".to_string()));
    assert_eq!(pb.source, EndpointID::with_dtn("node1".to_string()));
    assert_eq!(pb.report_to, pb.source);
    assert_eq!(pb.version, 7);
    assert_eq!(pb.bundle_control_flags, 0);
    assert_eq!(pb.lifetime, 3600);
    assert_eq!(pb.creation_timestamp, ts);
    assert!(pb.crc.is_empty());
    assert!(try_new_primary_block("dtn://a/b".to_string(), "ipn:1.2".to_string(), ts, 1).is_some());
    assert!(try_new_primary_block("not a uri".to_string(), "dtn://a/".to_string(), ts, 1).is_none());
}

#[test]
fn creation_timestamp_zero() {
    let z = CreationTimestamp::new();
    assert_eq!(z, CreationTimestamp::with_time_and_seq(0, 0));
    assert_eq!(z, CreationTimestamp::default());
    assert_eq!(z.get_dtntime(), 0);
    assert_eq!(z.get_seqno(), 0);
}

#[test]
fn crc_set_then_checked() {
    let enc = b"the block with its checksum zeroed";
    for t in [CRC_16, CRC_32] {
        let mut b = new_payload_block(0, vec![1, 2, 3]);
        b.set_crc_type(t);
        assert!(!check_crc(&b, enc));
        b.set_crc(calculate_crc(t, enc));
        assert!(check_crc(&b, enc));
    }
}
