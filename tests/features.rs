use airplay::features::{
    flag_name, AirplayFeatures, SUPPORTS_AUDIO, SUPPORTS_AUDIO_STREAM_CONNECTION_SETUP,
    SUPPORTS_BUFFERED_AUDIO, SUPPORTS_RFC2198_REDUNDANCY,
};

fn parse_bits(s: &str) -> Option<u64> {
    AirplayFeatures::parse(s).map(|f| f.bits())
}

#[test]
fn parse_audio_and_buffered_audio() {
    let f = AirplayFeatures::parse("0x200,0x100").unwrap();
    assert_eq!(f.bits(), (1u64 << 9) | (1u64 << 40));
    let mask = AirplayFeatures::from_bit(SUPPORTS_AUDIO)
        .union(AirplayFeatures::from_bit(SUPPORTS_BUFFERED_AUDIO));
    assert!(f.contains(mask));
    assert!(!f.contains(AirplayFeatures::from_bit(SUPPORTS_AUDIO_STREAM_CONNECTION_SETUP)));
}

#[test]
fn parse_rejects_malformed() {
    assert_eq!(parse_bits("bxd,0x1"), None);
    assert_eq!(parse_bits("0x1"), None);
    assert_eq!(parse_bits("0x1,0x2,0x3"), None);
    assert_eq!(parse_bits("0x1,0xFFFFFFFFFF"), None);
    assert_eq!(parse_bits(""), None);
    assert_eq!(parse_bits(","), None);
    assert_eq!(parse_bits("0x,0x1"), None);
    assert_eq!(parse_bits("0xg,0x1"), None);
    assert_eq!(parse_bits("0x1,0x100000000"), None);
}

#[test]
fn parse_reads_letters_as_hex_digits() {
    assert_eq!(parse_bits("bad,0x1"), Some(0xBAD | (1u64 << 32)));
}

#[test]
fn parse_accepts_prefix_forms() {
    assert_eq!(parse_bits("1,2"), Some(1 | (2u64 << 32)));
    assert_eq!(parse_bits("0X1f,0xaB"), Some(0x1f | (0xab_u64 << 32)));
    assert_eq!(parse_bits("0xFFFFFFFF,0xFFFFFFFF"), Some(u64::MAX));
    assert_eq!(parse_bits("0x0000000000000A,0"), Some(10));
}

#[test]
fn format_exact_text() {
    assert_eq!(AirplayFeatures::from_bits_retain(0).to_string(), "0x0,0x0");
    assert_eq!(
        AirplayFeatures::from_bits_retain((1u64 << 9) | (1u64 << 40)).to_string(),
        "0x200,0x100"
    );
    assert_eq!(
        AirplayFeatures::from_bits_retain(0x5A7FFFF7_1E5A7FFF).to_string(),
        "0x1E5A7FFF,0x5A7FFFF7"
    );
    assert_eq!(AirplayFeatures::from_bits_retain(u64::MAX).to_string(), "0xFFFFFFFF,0xFFFFFFFF");
}

#[test]
fn round_trip_keeps_unnamed_bits() {
    let values = [0u64, 1, 1 << 10, 1 << 63, 0x8000_0000_0000_0400, u64::MAX, 0x0123_4567_89AB_CDEF];
    for v in values {
        let text = AirplayFeatures::from_bits_retain(v).to_string();
        assert_eq!(parse_bits(&text), Some(v));
    }
}

#[test]
fn iter_names_single_bit() {
    let f = AirplayFeatures::from_bit(SUPPORTS_RFC2198_REDUNDANCY);
    let names = f.iter_names();
    assert_eq!(names, vec![("SUPPORTS_RFC2198_REDUNDANCY", 61)]);
    assert_eq!(f.iter_names(), names);
}

#[test]
fn iter_names_empty() {
    assert!(AirplayFeatures::from_bits_retain(0).iter_names().is_empty());
}

#[test]
fn iter_names_skips_unnamed_and_orders() {
    let f = AirplayFeatures::from_bits_retain((1u64 << 40) | (1 << 10) | (1 << 9) | (1 << 63));
    assert_eq!(
        f.iter_names(),
        vec![("SUPPORTS_AUDIO", 9), ("SUPPORTS_BUFFERED_AUDIO", 40)]
    );
}

#[test]
fn flag_name_table() {
    assert_eq!(flag_name(0), Some("SUPPORTS_VIDEO_V1"));
    assert_eq!(flag_name(59), Some("SUPPORTS_AUDIO_STREAM_CONNECTION_SETUP"));
    assert_eq!(flag_name(10), None);
    assert_eq!(flag_name(63), None);
}

#[test]
fn has_and_contains() {
    let f = AirplayFeatures::from_bits_retain(0b1010);
    assert!(f.has(1));
    assert!(!f.has(0));
    assert!(f.contains(AirplayFeatures::from_bits_retain(0)));
    assert!(f.contains(AirplayFeatures::from_bits_retain(0b1000)));
    assert!(!f.contains(AirplayFeatures::from_bits_retain(0b1100)));
}
