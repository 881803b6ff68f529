use airplay::bootstrap::{
    auth_setup_body, auth_setup_url, on_read, select_endpoint, setup_request, BootstrapError, Endpoint,
    Ipv4, ReadDecision, ReadOutcome, Stage,
};
use airplay::discovery::{DiscoveredDevice, IpAddress};
use airplay::features::AirplayFeatures;
use airplay::session::{auth_setup_body_for, fresh_auth_setup_body, prepare_setup, prepare_setup_with, BootstrapRecord, SequenceCounter, SessionContext};

fn device(addresses: Vec<IpAddress>) -> DiscoveredDevice {
    DiscoveredDevice {
        addresses,
        port: 7000,
        properties: Vec::new(),
        features: AirplayFeatures::from_bits_retain(0),
    }
}

fn endpoint() -> Endpoint {
    Endpoint { ip: Ipv4(10, 0, 0, 5), port: 7000 }
}

#[test]
fn no_ipv4_address_fails() {
    let d = device(vec![IpAddress::V6(1)]);
    assert_eq!(select_endpoint(&d), Err(BootstrapError::NoUsableAddress));
    assert_eq!(select_endpoint(&device(Vec::new())), Err(BootstrapError::NoUsableAddress));
}

#[test]
fn first_ipv4_address_chosen() {
    let d = device(vec![IpAddress::V6(1), IpAddress::V4(10, 0, 0, 5), IpAddress::V4(10, 0, 0, 6)]);
    assert_eq!(select_endpoint(&d), Ok(endpoint()));
}

#[test]
fn sequence_counter_counts_up() {
    let c = SequenceCounter::new();
    let got: Vec<u64> = (0..5).map(|_| c.next()).collect();
    assert_eq!(got, vec![0, 1, 2, 3, 4]);
}

#[test]
fn auth_url_text() {
    let url = String::from_utf8(auth_setup_url(endpoint())).unwrap();
    assert_eq!(url, "http://10.0.0.5:7000/auth-setup");
}

#[test]
fn auth_body_layout() {
    let key = [7u8; 32];
    let body = auth_setup_body(&key);
    assert_eq!(body.len(), 33);
    assert_eq!(body[0], 0x10);
    assert_eq!(&body[1..], &key[..]);
}

#[test]
fn fresh_auth_body_has_public_key() {
    let body = fresh_auth_setup_body();
    assert_eq!(body.len(), 33);
    assert_eq!(body[0], 0x10);
}

#[test]
fn setup_request_framing() {
    let body = vec![0u8, 1, 2, 255];
    let r = setup_request(Endpoint { ip: Ipv4(192, 168, 0, 1), port: 5000 }, 42, &body);
    let mut expected = b"SETUP rtsp://192.168.0.1:5000 RTSP/1.0\r\nCSeq: 42\r\nContent-Length: 4\r\n\r\n".to_vec();
    expected.extend_from_slice(&body);
    assert_eq!(r, expected);
}

#[test]
fn record_encodes_as_binary_plist() {
    let rec = BootstrapRecord::new(&[1u8; 32], &[2u8; 12]);
    assert_eq!(rec.et, 0);
    assert_eq!(rec.timing_protocol, "NTP");
    let bytes = rec.encode().unwrap();
    assert!(bytes.starts_with(b"bplist00"));
}

#[test]
fn prepared_setup_carries_record() {
    let p = prepare_setup_with(endpoint(), [1u8; 32], [2u8; 12], 3).unwrap();
    let body = BootstrapRecord::new(&[1u8; 32], &[2u8; 12]).encode().unwrap();
    assert_eq!(p.request, setup_request(endpoint(), 3, &body));
    let head = format!("SETUP rtsp://10.0.0.5:7000 RTSP/1.0\r\nCSeq: 3\r\nContent-Length: {}\r\n\r\n", body.len());
    assert!(p.request.starts_with(head.as_bytes()));
}

#[test]
fn prepare_setup_numbers_requests() {
    let c = SequenceCounter::new();
    let a = prepare_setup(endpoint(), &c).unwrap();
    let b = prepare_setup(endpoint(), &c).unwrap();
    assert_eq!(a.sequence, 0);
    assert_eq!(b.sequence, 1);
    assert_ne!(a.key, b.key);
    let ctx = SessionContext::new(endpoint(), b, vec![1, 2]);
    assert_eq!(ctx.sequence, 1);
    let _cipher = ctx.cipher();
}

#[test]
fn stages_move_forward() {
    let mut s = Stage::Idle;
    for _ in 0..5 {
        s = s.advance(Ok(()));
    }
    assert_eq!(s, Stage::ResponseReceived);
    assert_eq!(s.advance(Err(BootstrapError::ReadFailed)), Stage::ResponseReceived);
    let f = Stage::AddressSelected.advance(Err(BootstrapError::AuthSetupFailed));
    assert_eq!(f, Stage::Failed(BootstrapError::AuthSetupFailed));
    assert_eq!(f.advance(Ok(())), f);
    assert!(f.is_terminal());
    assert!(!Stage::Idle.is_terminal());
}

#[test]
fn read_decisions() {
    assert_eq!(on_read(ReadOutcome::NotReady), ReadDecision::Retry);
    assert_eq!(on_read(ReadOutcome::Bytes(12)), ReadDecision::Finished(12));
    assert_eq!(on_read(ReadOutcome::Bytes(0)), ReadDecision::Finished(0));
    assert_eq!(on_read(ReadOutcome::Failed), ReadDecision::Abort(BootstrapError::ReadFailed));
}

#[test]
fn auth_body_uses_derived_public_key() {
    let secret: [u8; 32] = [
        0x9d, 0x61, 0xb1, 0x9d, 0xef, 0xfd, 0x5a, 0x60, 0xba, 0x84, 0x4a, 0xf4, 0x92, 0xec, 0x2c, 0xc4,
        0x44, 0x49, 0xc5, 0x69, 0x7b, 0x32, 0x69, 0x19, 0x70, 0x3b, 0xac, 0x03, 0x1c, 0xae, 0x7f, 0x60,
    ];
    let public: [u8; 32] = [
        0xd7, 0x5a, 0x98, 0x01, 0x82, 0xb1, 0x0a, 0xb7, 0xd5, 0x4b, 0xfe, 0xd3, 0xc9, 0x64, 0x07, 0x3a,
        0x0e, 0xe1, 0x72, 0xf3, 0xda, 0xa6, 0x23, 0x25, 0xaf, 0x02, 0x1a, 0x68, 0xf7, 0x07, 0x51, 0x1a,
    ];
    let body = auth_setup_body_for(&secret);
    assert_eq!(body[0], 0x10);
    assert_eq!(&body[1..], &public[..]);
}
