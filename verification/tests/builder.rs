use ping::default_socket_type;
use ping::IpAddress;
use ping::Ping;
use ping::ProtocolVariant;
use ping::SocketType;
use ping::DEFAULT_SEQ_CNT;
use ping::DEFAULT_TIMEOUT_NS;
use ping::DEFAULT_TTL;
use ping::TOKEN_SIZE;

const LOOPBACK_V4: IpAddress = IpAddress::V4(0x7f000001);
const LOOPBACK_V6: IpAddress = IpAddress::V6(1);

#[test]
fn new_builder_is_unset() {
    let p = ping::new(LOOPBACK_V4);
    assert_eq!(p.socket_type, SocketType::DGRAM);
    assert_eq!(p.addr, LOOPBACK_V4);
    assert!(p.timeout_ns.is_none());
    assert!(p.ttl.is_none());
    assert!(p.ident.is_none());
    assert!(p.seq_cnt.is_none());
    assert!(p.payload.is_none());
}

#[test]
fn setters_accumulate() {
    let mut p = Ping::new(LOOPBACK_V4);
    p.timeout(1_000_000_000).ttl(42);
    p.ident(12_345).seq_cnt(42).payload(vec![1, 2, 3]).socket_type(SocketType::RAW);
    assert_eq!(p.timeout_ns, Some(1_000_000_000));
    assert_eq!(p.ttl, Some(42));
    assert_eq!(p.ident, Some(12_345));
    assert_eq!(p.seq_cnt, Some(42));
    assert_eq!(p.payload, Some(vec![1, 2, 3]));
    assert_eq!(p.socket_type, SocketType::RAW);
}

#[test]
fn finalize_applies_defaults() {
    let fallback_payload = vec![9u8; TOKEN_SIZE];
    let ex = ping::new(LOOPBACK_V4).finalize(777, fallback_payload.clone());
    assert_eq!(ex.socket_type, SocketType::DGRAM);
    assert_eq!(ex.addr, LOOPBACK_V4);
    assert_eq!(ex.variant, ProtocolVariant::IcmpV4);
    assert_eq!(ex.timeout_ns, DEFAULT_TIMEOUT_NS);
    assert_eq!(ex.timeout_ns, 4_000_000_000);
    assert_eq!(ex.ttl, DEFAULT_TTL);
    assert_eq!(ex.ttl, 64);
    assert_eq!(ex.request.ident, 777);
    assert_eq!(ex.request.seq_cnt, DEFAULT_SEQ_CNT);
    assert_eq!(ex.request.seq_cnt, 1);
    assert_eq!(ex.request.payload, fallback_payload);
}

#[test]
fn finalize_keeps_chosen_values() {
    let ex = ping::new(LOOPBACK_V6)
        .timeout(200_000_000)
        .ttl(128)
        .ident(12_345)
        .seq_cnt(42)
        .payload(vec![5; 10])
        .finalize(1, vec![2; TOKEN_SIZE]);
    assert_eq!(ex.variant, ProtocolVariant::IcmpV6);
    assert_eq!(ex.timeout_ns, 200_000_000);
    assert_eq!(ex.ttl, 128);
    assert_eq!(ex.request.ident, 12_345);
    assert_eq!(ex.request.seq_cnt, 42);
    assert_eq!(ex.request.payload, vec![5; 10]);
}

#[test]
fn resolve_draws_token_for_unset_payload() {
    let ex = ping::new(LOOPBACK_V4).resolve();
    assert_eq!(ex.request.payload.len(), TOKEN_SIZE);
    assert_eq!(ex.request.seq_cnt, 1);
    assert_eq!(ex.timeout_ns, DEFAULT_TIMEOUT_NS);
}

#[test]
fn resolve_keeps_chosen_values() {
    let ex = ping::new(LOOPBACK_V4).ident(166).payload(vec![3; 4]).resolve();
    assert_eq!(ex.request.ident, 166);
    assert_eq!(ex.request.payload, vec![3; 4]);
}

#[test]
fn platform_default_socket_kind() {
    assert_eq!(default_socket_type(true), SocketType::RAW);
    assert_eq!(default_socket_type(false), SocketType::DGRAM);
}

#[test]
fn address_variant() {
    let mut p4 = Ping::new(LOOPBACK_V4);
    let mut p6 = Ping::new(LOOPBACK_V6);
    assert_eq!(p4.addr.variant(), ProtocolVariant::IcmpV4);
    assert_eq!(p6.addr.variant(), ProtocolVariant::IcmpV6);
    // The variant follows the address, not the socket kind.
    p4.socket_type(SocketType::RAW);
    p6.socket_type(SocketType::DGRAM);
    assert_eq!(p4.finalize(1, vec![]).variant, ProtocolVariant::IcmpV4);
    assert_eq!(p6.finalize(1, vec![]).variant, ProtocolVariant::IcmpV6);
}
