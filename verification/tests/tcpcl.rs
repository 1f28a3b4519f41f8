use dtn7::cla::tcpcl::{
    encode_contact_header, encode_keepalive, encode_sess_init, encode_sess_term,
    encode_xfer_ack, encode_xfer_refuse, encode_xfer_segment, generate_xfer_segments,
    parse_contact_header, parses_packet, ContactHeaderError, MessageType, SessInitData,
    SessTermFlags, SessTermReasonCode, TcpClError, TcpClPacket, XferRefuseReasonCode,
    XferSegData, XferSegmentFlags,
};

fn perform_gen_xfer_segs_test(
    segment_mru: u64,
    transfer_mru: u64,
    data_len: u64,
) -> Result<Vec<XferSegData>, TcpClError> {
    let config = SessInitData {
        keepalive: 0,
        segment_mru,
        transfer_mru,
        node_id: "node1".into(),
    };
    let mut data_raw: Vec<u8> = Vec::with_capacity(data_len as usize);
    for _ in 0..data_len {
        data_raw.push(0x90);
    }

    let fitting = if data_len % segment_mru == 0 { 0 } else { 1 };
    let num_expected_segs = ((data_len / segment_mru) + fitting) as usize;

    let segs = generate_xfer_segments(&config, &data_raw, 0)
        .expect("error generating xfer segment list");
    assert_eq!(segs.len(), num_expected_segs);

    assert!(segs[0].flags.contains(XferSegmentFlags::START));
    assert!(segs[num_expected_segs - 1]
        .flags
        .contains(XferSegmentFlags::END));

    Ok(segs)
}

#[test]
fn gen_xfer_segs_single_seg() {
    let segs =
        perform_gen_xfer_segs_test(42, 100, 40).expect("error generating xfer segment list");
    assert_eq!(segs.len(), 1);
}

#[test]
fn gen_xfer_segs_two_segs() {
    let segs =
        perform_gen_xfer_segs_test(42, 100, 45).expect("error generating xfer segment list");
    assert_eq!(segs.len(), 2);
}

#[test]
fn gen_xfer_segs_three_segs() {
    let segs =
        perform_gen_xfer_segs_test(10, 100, 28).expect("error generating xfer segment list");
    assert_eq!(segs.len(), 3);
}

#[test]
fn gen_xfer_segs_seg_edge_case() {
    let segs =
        perform_gen_xfer_segs_test(10, 100, 10).expect("error generating xfer segment list");
    assert_eq!(segs.len(), 1);
}

#[test]
#[should_panic]
fn gen_xfer_segs_exceeding_t_mru() {
    let _ = perform_gen_xfer_segs_test(42, 100, 180);
}

fn config(segment_mru: u64, transfer_mru: u64) -> SessInitData {
    SessInitData {
        keepalive: 30,
        segment_mru,
        transfer_mru,
        node_id: "dtn://node1/".into(),
    }
}

#[test]
fn segments_carry_the_data_in_order() {
    let data: Vec<u8> = (0..28u8).collect();
    let segs = generate_xfer_segments(&config(10, 100), &data, 7).unwrap();
    assert_eq!(segs.len(), 3);
    assert_eq!(segs[0].len, 10);
    assert_eq!(segs[1].len, 10);
    assert_eq!(segs[2].len, 8);
    assert_eq!(segs[0].flags.bits, 0x02);
    assert_eq!(segs[1].flags.bits, 0x00);
    assert_eq!(segs[2].flags.bits, 0x01);
    assert!(segs.iter().all(|s| s.tid == 7));
    let joined: Vec<u8> = segs.iter().flat_map(|s| s.buf.clone()).collect();
    assert_eq!(joined, data);
}

#[test]
fn single_segment_has_both_flags() {
    let segs = generate_xfer_segments(&config(42, 100), &[1, 2, 3], 1).unwrap();
    assert_eq!(segs.len(), 1);
    assert_eq!(segs[0].flags.bits, 0x03);
    assert_eq!(segs[0].buf, vec![1, 2, 3]);
}

#[test]
fn empty_bundle_has_no_segment() {
    let segs = generate_xfer_segments(&config(42, 100), &[], 1).unwrap();
    assert!(segs.is_empty());
}

#[test]
fn exact_multiple_leaves_last_segment_empty() {
    let data = vec![9u8; 20];
    let segs = generate_xfer_segments(&config(10, 100), &data, 2).unwrap();
    assert_eq!(segs.len(), 2);
    assert_eq!(segs[0].len, 10);
    assert_eq!(segs[1].len, 0);
    assert!(segs[1].buf.is_empty());
}

#[test]
fn bundle_above_transfer_mru_is_refused() {
    let data = vec![0u8; 101];
    assert_eq!(
        generate_xfer_segments(&config(10, 100), &data, 2).unwrap_err(),
        TcpClError::BundleTooBig
    );
}

#[test]
fn message_type_codes() {
    assert_eq!(MessageType::from_u8(0x04), Some(MessageType::KEEPALIVE));
    assert_eq!(MessageType::SESS_INIT.code(), 0x07);
    assert_eq!(MessageType::from_u8(0x08), None);
    assert_eq!(MessageType::from_u8(0x00), None);
}

#[test]
fn parse_empty_buffer_is_read_error() {
    let mut buf: Vec<u8> = vec![];
    assert!(matches!(parses_packet(&mut buf), Err(TcpClError::ReadError)));
}

#[test]
fn parse_unknown_type() {
    let mut buf: Vec<u8> = vec![0x09, 1, 2];
    assert!(matches!(
        parses_packet(&mut buf),
        Err(TcpClError::UnknownPacketType(0x09))
    ));
    assert_eq!(buf, vec![0x09, 1, 2]);
}

#[test]
fn keepalive_roundtrip_consumes_one_byte() {
    let mut buf = encode_keepalive();
    buf.push(0xaa);
    assert!(matches!(parses_packet(&mut buf), Ok(TcpClPacket::KeepAlive)));
    assert_eq!(buf, vec![0xaa]);
}

#[test]
fn sess_term_roundtrip() {
    let mut buf = encode_sess_term(
        SessTermReasonCode::Busy,
        SessTermFlags::from_bits_truncate(SessTermFlags::REPLY),
    );
    assert_eq!(buf, vec![0x05, 0x01, 0x03]);
    match parses_packet(&mut buf) {
        Ok(TcpClPacket::SessTerm(d)) => {
            assert_eq!(d.reason, SessTermReasonCode::Busy);
            assert_eq!(d.flags.bits(), 0x01);
        }
        other => panic!("unexpected {:?}", other),
    }
    assert!(buf.is_empty());
}

#[test]
fn sess_term_unknown_reason_keeps_buffer() {
    let mut buf = vec![0x05, 0x00, 0x09];
    assert!(matches!(
        parses_packet(&mut buf),
        Err(TcpClError::UnknownResaonCode(0x09))
    ));
    assert_eq!(buf.len(), 3);
}

#[test]
fn sess_term_too_short() {
    let mut buf = vec![0x05, 0x00];
    assert!(matches!(
        parses_packet(&mut buf),
        Err(TcpClError::NotEnoughBytesReceived)
    ));
}

#[test]
fn xfer_refuse_roundtrip() {
    let mut buf = encode_xfer_refuse(XferRefuseReasonCode::NoResources, 0x0102030405060708);
    assert_eq!(buf, vec![0x03, 0x02, 1, 2, 3, 4, 5, 6, 7, 8]);
    match parses_packet(&mut buf) {
        Ok(TcpClPacket::XferRefuse(d)) => {
            assert_eq!(d.reason, XferRefuseReasonCode::NoResources);
            assert_eq!(d.tid, 0x0102030405060708);
        }
        other => panic!("unexpected {:?}", other),
    }
    assert!(buf.is_empty());
}

#[test]
fn xfer_ack_parse() {
    let mut buf = vec![0x02, 0xff, 0, 0, 0, 0, 0, 0, 0, 5, 0, 0, 0, 0, 0, 0, 1, 0, 0x42];
    match parses_packet(&mut buf) {
        Ok(TcpClPacket::XferAck(d)) => {
            assert_eq!(d.flags.bits(), 0x03);
            assert_eq!(d.tid, 5);
            assert_eq!(d.len, 256);
        }
        other => panic!("unexpected {:?}", other),
    }
    assert_eq!(buf, vec![0x42]);
}

#[test]
fn xfer_ack_encoding_carries_segment_type() {
    let mut buf = encode_xfer_ack(XferSegmentFlags::from_bits_truncate(0x01), 3, 4);
    assert_eq!(buf.len(), 18);
    assert_eq!(buf[0], 0x01);
    assert!(matches!(parses_packet(&mut buf), Ok(TcpClPacket::XferSeg)));
    assert_eq!(buf.len(), 18);
}

#[test]
fn xfer_segment_encoding() {
    let seg = XferSegData {
        flags: XferSegmentFlags::from_bits_truncate(0x03),
        tid: 1,
        len: 2,
        buf: vec![0xab, 0xcd],
    };
    let buf = encode_xfer_segment(&seg);
    assert_eq!(
        buf,
        vec![0x02, 0x03, 0, 0, 0, 0, 0, 0, 0, 1, 0, 0, 0, 0, 0, 0, 0, 0, 0, 0, 0, 2, 0xab, 0xcd]
    );
}

#[test]
fn sess_init_roundtrip() {
    let data = SessInitData {
        keepalive: 30,
        segment_mru: 64000,
        transfer_mru: 64001,
        node_id: "node1".into(),
    };
    let mut buf = encode_sess_init(&data);
    assert_eq!(buf.len(), 25 + 5);
    buf.extend_from_slice(&[7, 7]);
    match parses_packet(&mut buf) {
        Ok(TcpClPacket::SessInit(d)) => assert_eq!(d, data),
        other => panic!("unexpected {:?}", other),
    }
    assert_eq!(buf, vec![7, 7]);
}

#[test]
fn sess_init_with_extension_items_is_refused_and_consumed() {
    let data = SessInitData {
        keepalive: 1,
        segment_mru: 2,
        transfer_mru: 3,
        node_id: "n".into(),
    };
    let mut buf = encode_sess_init(&data);
    let last = buf.len() - 1;
    buf[last] = 1;
    assert!(matches!(
        parses_packet(&mut buf),
        Err(TcpClError::SessionExtensionItemsUnsupported)
    ));
    assert!(buf.is_empty());
}

#[test]
fn sess_init_short_buffers() {
    let mut buf = vec![0x07; 19];
    assert!(matches!(
        parses_packet(&mut buf),
        Err(TcpClError::NotEnoughBytesReceived)
    ));
    let mut buf = vec![0x07; 20];
    assert!(matches!(parses_packet(&mut buf), Err(TcpClError::ReadError)));
    assert_eq!(buf.len(), 20);
}

#[test]
fn sess_init_lossy_node_id() {
    let mut buf = vec![0x07, 0, 1, 0, 0, 0, 0, 0, 0, 0, 1, 0, 0, 0, 0, 0, 0, 0, 1, 0, 1, 0xff, 0, 0, 0, 0];
    match parses_packet(&mut buf) {
        Ok(TcpClPacket::SessInit(d)) => assert_eq!(d.node_id, "\u{fffd}"),
        other => panic!("unexpected {:?}", other),
    }
}

#[test]
fn msg_reject_and_segment_consume_nothing() {
    let mut buf = vec![0x06, 1];
    assert!(matches!(parses_packet(&mut buf), Ok(TcpClPacket::MsgReject)));
    assert_eq!(buf.len(), 2);
    let mut buf = vec![0x01, 1];
    assert!(matches!(parses_packet(&mut buf), Ok(TcpClPacket::XferSeg)));
    assert_eq!(buf.len(), 2);
}

#[test]
fn contact_header_checks() {
    let ch = encode_contact_header();
    assert_eq!(ch, b"dtn!\x04\x00".to_vec());
    let arr: [u8; 6] = [ch[0], ch[1], ch[2], ch[3], ch[4], ch[5]];
    assert_eq!(parse_contact_header(arr).unwrap().bits(), 0);
    assert_eq!(
        parse_contact_header(*b"dtn?\x04\x00"),
        Err(ContactHeaderError::InvalidMagic)
    );
    assert_eq!(
        parse_contact_header(*b"dtn!\x03\x00"),
        Err(ContactHeaderError::UnsupportedVersion)
    );
    assert_eq!(parse_contact_header(*b"dtn!\x04\xff").unwrap().bits(), 0x01);
}
