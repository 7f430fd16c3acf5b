use ping::checksum;
use ping::Error;
use ping::EchoReply;
use ping::EchoRequest;
use ping::IpProtocol;
use ping::IpV4Packet;
use ping::ProtocolVariant;

#[test]
fn checksum_known_words() {
    // Words 0x0001, 0xf203, 0xf4f5, 0xf6f7 sum to 0x2ddf0; folding the
    // carry gives 0xddf2, whose complement is 0x220d.
    let data = [0x00u8, 0x01, 0xf2, 0x03, 0xf4, 0xf5, 0xf6, 0xf7];
    assert_eq!(checksum(&data), 0x220d);
}

#[test]
fn checksum_empty_and_odd() {
    assert_eq!(checksum(&[]), 0xffff);
    // A trailing odd byte is padded with a zero low byte.
    assert_eq!(checksum(&[0xff]), 0x00ff);
    assert_eq!(checksum(&[0x12, 0x34, 0x56]), !0x6834u16);
}

#[test]
fn checksum_inserted_verifies_to_zero() {
    // The checksum of a buffer with the checksum field zeroed, written
    // back into that field, makes the checksum of the buffer zero.
    let mut buf = vec![8u8, 0, 0, 0, 0x30, 0x39, 0, 42, 1, 2, 3, 4, 5];
    let c = checksum(&buf);
    buf[2] = (c / 256) as u8;
    buf[3] = (c % 256) as u8;
    assert_eq!(checksum(&buf), 0);
}

#[test]
fn encode_layout_v4() {
    let req = EchoRequest { ident: 0x1234, seq_cnt: 0x0102, payload: vec![9, 8, 7] };
    let mut buf = vec![0u8; 11];
    assert!(req.encode(ProtocolVariant::IcmpV4, &mut buf).is_ok());
    assert_eq!(buf[0], 8); // echo request type for IPv4
    assert_eq!(buf[1], 0); // code
    assert_eq!(buf[4], 0x12);
    assert_eq!(buf[5], 0x34);
    assert_eq!(buf[6], 0x01);
    assert_eq!(buf[7], 0x02);
    assert_eq!(&buf[8..], &[9, 8, 7]);
    // The stored checksum makes the whole buffer sum to zero.
    assert_eq!(checksum(&buf), 0);
}

#[test]
fn encode_layout_v6() {
    let req = EchoRequest { ident: 1, seq_cnt: 2, payload: vec![] };
    let mut buf = vec![0u8; 8];
    assert!(req.encode(ProtocolVariant::IcmpV6, &mut buf).is_ok());
    assert_eq!(buf[0], 128); // echo request type for IPv6
    assert_eq!(checksum(&buf), 0);
}

#[test]
fn encode_rejects_small_buffer() {
    let req = EchoRequest { ident: 1, seq_cnt: 2, payload: vec![1, 2, 3, 4] };
    let mut buf = vec![0u8; 11];
    let before = buf.clone();
    match req.encode(ProtocolVariant::IcmpV4, &mut buf) {
        Err(Error::InternalError) => {}
        other => panic!("expected InternalError, got {:?}", other),
    }
    assert_eq!(buf, before);
}

#[test]
fn decode_round_trip_v4() {
    let req = EchoRequest { ident: 0xbeef, seq_cnt: 7, payload: vec![1, 2, 3, 4, 5] };
    let mut buf = vec![0u8; 13];
    req.encode(ProtocolVariant::IcmpV4, &mut buf).unwrap();
    // What comes back from the peer is the same message with the reply
    // type code; the decoder does not re-validate the checksum.
    buf[0] = 0;
    let rep = EchoReply::decode(&buf, ProtocolVariant::IcmpV4).unwrap();
    assert_eq!(rep.ident, 0xbeef);
    assert_eq!(rep.seq_cnt, 7);
    assert_eq!(rep.payload, vec![1, 2, 3, 4, 5]);
}

#[test]
fn decode_round_trip_v6() {
    let req = EchoRequest { ident: 54321, seq_cnt: 99, payload: vec![42; 24] };
    let mut buf = vec![0u8; 32];
    req.encode(ProtocolVariant::IcmpV6, &mut buf).unwrap();
    buf[0] = 129; // echo reply type for IPv6
    let rep = EchoReply::decode(&buf, ProtocolVariant::IcmpV6).unwrap();
    assert_eq!(rep.ident, 54321);
    assert_eq!(rep.seq_cnt, 99);
    assert_eq!(rep.payload, vec![42; 24]);
}

#[test]
fn decode_rejects_short_buffer() {
    match EchoReply::decode(&[0u8; 7], ProtocolVariant::IcmpV4) {
        Err(Error::DecodeEchoReplyError) => {}
        other => panic!("expected DecodeEchoReplyError, got {:?}", other),
    }
}

#[test]
fn decode_rejects_wrong_type_byte() {
    // An echo request (type 8) is not a reply; same for a v6 reply
    // handed to a v4 decode.
    let buf = [8u8, 0, 0, 0, 0, 1, 0, 1];
    assert!(matches!(
        EchoReply::decode(&buf, ProtocolVariant::IcmpV4),
        Err(Error::DecodeEchoReplyError)
    ));
    let buf6 = [129u8, 0, 0, 0, 0, 1, 0, 1];
    assert!(matches!(
        EchoReply::decode(&buf6, ProtocolVariant::IcmpV4),
        Err(Error::DecodeEchoReplyError)
    ));
    assert!(EchoReply::decode(&buf6, ProtocolVariant::IcmpV6).is_ok());
}

#[test]
fn ipv4_rejects_short_buffers() {
    // Shorter than the 20-byte minimum.
    match IpV4Packet::decode(&[0u8; 19]) {
        Err(Error::DecodeV4Error) => {}
        other => panic!("expected DecodeV4Error, got {:?}", other),
    }
    // Declared header length (6 * 4 = 24) exceeds the buffer length.
    let mut buf = [0u8; 20];
    buf[0] = 0x46;
    assert!(matches!(IpV4Packet::decode(&buf), Err(Error::DecodeV4Error)));
}

#[test]
fn ipv4_strips_header() {
    let mut buf = [0u8; 24];
    buf[0] = 0x45; // header length 5 * 4 = 20
    buf[9] = 1; // ICMP
    buf[20] = 0xaa;
    buf[21] = 0xbb;
    buf[22] = 0xcc;
    buf[23] = 0xdd;
    let packet = IpV4Packet::decode(&buf).unwrap();
    assert_eq!(packet.protocol, IpProtocol::Icmp);
    assert_eq!(packet.data, vec![0xaa, 0xbb, 0xcc, 0xdd]);
}

#[test]
fn ipv4_reports_other_protocols() {
    let mut buf = [0u8; 20];
    buf[0] = 0x45;
    buf[9] = 6; // TCP
    let packet = IpV4Packet::decode(&buf).unwrap();
    assert_eq!(packet.protocol, IpProtocol::Other(6));
    assert!(packet.data.is_empty());
}
