use dtn7::cla::mtcp::{
    cbor_hdr_len, cbor_parse_byte_string_len, cbor_parse_byte_string_len_first, frame_bundles,
    CborByteString, MPDUCodec, MpduError, MtcpConvergenceLayer, MPDU,
};
use dtn7::cla::ConvergenceLayerAgent;

#[test]
fn first_byte_classification() {
    assert_eq!(cbor_parse_byte_string_len_first(0x45), CborByteString::Len(5));
    assert_eq!(cbor_parse_byte_string_len_first(0x58), CborByteString::U8);
    assert_eq!(cbor_parse_byte_string_len_first(0x59), CborByteString::U16);
    assert_eq!(cbor_parse_byte_string_len_first(0x5a), CborByteString::U32);
    assert_eq!(cbor_parse_byte_string_len_first(0x5b), CborByteString::U64);
    assert_eq!(cbor_parse_byte_string_len_first(0x5f), CborByteString::Not);
    assert_eq!(cbor_parse_byte_string_len_first(0x85), CborByteString::Not);
}

#[test]
fn header_lengths() {
    assert_eq!(cbor_hdr_len(0x40), 1);
    assert_eq!(cbor_hdr_len(0x58), 2);
    assert_eq!(cbor_hdr_len(0x59), 3);
    assert_eq!(cbor_hdr_len(0x5a), 5);
    assert_eq!(cbor_hdr_len(0x5b), 9);
    assert_eq!(cbor_hdr_len(0x9f), 0);
}

#[test]
fn string_lengths() {
    assert_eq!(cbor_parse_byte_string_len(&[0x57]), 23);
    assert_eq!(cbor_parse_byte_string_len(&[0x58, 0xc8]), 200);
    assert_eq!(cbor_parse_byte_string_len(&[0x59, 0x01, 0x02]), 258);
    assert_eq!(cbor_parse_byte_string_len(&[0x5a, 0, 1, 0, 0]), 65536);
    assert_eq!(
        cbor_parse_byte_string_len(&[0x5b, 0, 0, 0, 1, 0, 0, 0, 0]),
        1 << 32
    );
    assert_eq!(cbor_parse_byte_string_len(&[0x01, 0x02]), 0);
}

fn bundle_like(n: usize) -> Vec<u8> {
    let mut v = vec![0x9f];
    v.extend(std::iter::repeat(0x11).take(n - 2));
    v.push(0xff);
    v
}

#[test]
fn frame_and_decode_two_mpdus() {
    let b1 = bundle_like(30);
    let b2 = bundle_like(300);
    let mut stream = frame_bundles(&vec![b1.clone(), b2.clone()]).unwrap();
    assert_eq!(stream.len(), 2 + 30 + 3 + 300);
    assert_eq!(&stream[0..2], &[0x58, 30]);
    let mut codec = MPDUCodec::new();
    assert_eq!(codec.decode(&mut stream).unwrap(), Some(MPDU(b1)));
    assert_eq!(codec.decode(&mut stream).unwrap(), Some(MPDU(b2)));
    assert!(stream.is_empty());
    assert_eq!(codec.decode(&mut stream).unwrap(), None);
}

#[test]
fn decode_waits_for_more_bytes() {
    let b = bundle_like(40);
    let mut stream = frame_bundles(&vec![b]).unwrap();
    stream.truncate(20);
    let mut codec = MPDUCodec::default();
    assert_eq!(codec.decode(&mut stream).unwrap(), None);
    assert_eq!(stream.len(), 20);
}

#[test]
fn decode_errors() {
    let mut codec = MPDUCodec::new();
    let mut not_bytes = vec![0x9f; 12];
    assert_eq!(codec.decode(&mut not_bytes), Err(MpduError::InvalidLength));
    let mut no_terminator = vec![0x4a, 1, 2, 3, 4, 5, 6, 7, 8, 9, 10, 11];
    assert_eq!(
        codec.decode(&mut no_terminator),
        Err(MpduError::TerminatorNotFound)
    );
    assert_eq!(no_terminator.len(), 12);
}

#[test]
fn encode_appends_frame() {
    let mut codec = MPDUCodec::new();
    let mut dst = vec![1u8];
    codec.encode(MPDU::new(vec![0xaa, 0xbb]), &mut dst);
    assert_eq!(dst, vec![1, 0x42, 0xaa, 0xbb]);
}

#[test]
fn mtcp_default_port() {
    assert_eq!(MtcpConvergenceLayer::new(None).port(), 16162);
    assert_eq!(MtcpConvergenceLayer::new(Some(4000)).port(), 4000);
}

#[test]
fn mpdu_round_trip_through_the_codec() {
    for len in [1usize, 9, 23, 24, 255, 256, 70_000] {
        let mut p: Vec<u8> = (0..len).map(|i| (i % 251) as u8).collect();
        *p.last_mut().unwrap() = 0xff;
        let mut codec = MPDUCodec::new();
        let mut stream = Vec::new();
        codec.encode(MPDU::new(p.clone()), &mut stream);
        stream.extend_from_slice(&[1, 2, 3, 4, 5, 6, 7, 8, 9, 10]);
        let got = codec.decode(&mut stream);
        assert_eq!(got, Ok(Some(MPDU::new(p))));
        assert_eq!(stream, vec![1, 2, 3, 4, 5, 6, 7, 8, 9, 10]);
    }
}
