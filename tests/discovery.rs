use airplay::discovery::{examine, find_property, select_devices, DiscoveryWarning, IpAddress, ResolvedService};
use airplay::features::{AirplayFeatures, SUPPORTS_AUDIO, SUPPORTS_AUDIO_STREAM_CONNECTION_SETUP, SUPPORTS_BUFFERED_AUDIO};

fn event(features: Option<&str>, port: u16) -> ResolvedService {
    let mut properties = vec![("model".to_string(), "Speaker".to_string())];
    if let Some(f) = features {
        properties.push(("features".to_string(), f.to_string()));
    }
    ResolvedService {
        addresses: vec![IpAddress::V4(192, 168, 1, 20)],
        port,
        properties,
    }
}

fn audio_mask() -> AirplayFeatures {
    AirplayFeatures::from_bit(SUPPORTS_AUDIO).union(AirplayFeatures::from_bit(SUPPORTS_BUFFERED_AUDIO))
}

#[test]
fn missing_features_skipped_stream_continues() {
    let events = vec![event(None, 7000), event(Some("0x200,0x100"), 7001)];
    let devices = select_devices(events, audio_mask());
    assert_eq!(devices.len(), 1);
    assert_eq!(devices[0].port, 7001);
}

#[test]
fn missing_features_is_warning() {
    let r = examine(event(None, 7000), audio_mask());
    assert_eq!(r.err(), Some(DiscoveryWarning::MissingFeatures));
}

#[test]
fn malformed_features_is_warning() {
    let r = examine(event(Some("0x200"), 7000), audio_mask());
    assert_eq!(r.err(), Some(DiscoveryWarning::MalformedFeatures));
}

#[test]
fn required_mask_accepts_and_filters() {
    let d = examine(event(Some("0x200,0x100"), 7000), audio_mask()).unwrap().unwrap();
    assert_eq!(d.features.bits(), (1u64 << 9) | (1u64 << 40));
    assert_eq!(d.port, 7000);
    assert_eq!(d.addresses, vec![IpAddress::V4(192, 168, 1, 20)]);
    let stricter = audio_mask().union(AirplayFeatures::from_bit(SUPPORTS_AUDIO_STREAM_CONNECTION_SETUP));
    assert!(examine(event(Some("0x200,0x100"), 7000), stricter).unwrap().is_none());
    assert!(select_devices(vec![event(Some("0x200,0x100"), 7000)], stricter).is_empty());
}

#[test]
fn select_keeps_arrival_order() {
    let events = vec![
        event(Some("0x200,0x100"), 1),
        event(Some("bad"), 2),
        event(Some("0x0,0x0"), 3),
        event(Some("0x200,0x100"), 4),
    ];
    let ports: Vec<u16> = select_devices(events, audio_mask()).iter().map(|d| d.port).collect();
    assert_eq!(ports, vec![1, 4]);
}

#[test]
fn find_property_takes_first() {
    let props = vec![
        ("a".to_string(), "1".to_string()),
        ("features".to_string(), "x".to_string()),
        ("features".to_string(), "y".to_string()),
    ];
    assert_eq!(find_property(&props, &"features".to_string()).map(|s| s.as_str()), Some("x"));
    assert_eq!(find_property(&props, &"b".to_string()), None);
}
