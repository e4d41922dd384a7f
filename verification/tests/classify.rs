use netmux::IoErrorKind;
use netmux::MultiplexKind;
use netmux::DATAGRAM_MTU;

fn classify(bytes: &[u8]) -> Option<MultiplexKind> {
    MultiplexKind::try_from(bytes).ok()
}

#[test]
fn stun_minimal_header() {
    let mut bytes = vec![0u8; 20];
    bytes[0] = 0x00;
    bytes[1] = 0x01;
    assert_eq!(classify(&bytes), Some(MultiplexKind::Stun));
}

#[test]
fn stun_first_byte_one() {
    let mut bytes = vec![0u8; 32];
    bytes[0] = 0x01;
    assert_eq!(classify(&bytes), Some(MultiplexKind::Stun));
}

#[test]
fn stun_too_short_is_unrecognized() {
    let bytes = vec![0u8; 19];
    assert_eq!(classify(&bytes), None);
}

#[test]
fn dtls_regardless_of_length() {
    assert_eq!(classify(&[0x16]), Some(MultiplexKind::Dtls));
    assert_eq!(classify(&[0x16, 0x03]), Some(MultiplexKind::Dtls));
    let mut long = vec![0u8; 1200];
    long[0] = 0x3f;
    assert_eq!(classify(&long), Some(MultiplexKind::Dtls));
}

#[test]
fn dtls_range_boundaries() {
    assert_eq!(classify(&[20]), Some(MultiplexKind::Dtls));
    assert_eq!(classify(&[63]), Some(MultiplexKind::Dtls));
    assert_eq!(classify(&[19]), None);
    assert_eq!(classify(&[64]), None);
}

#[test]
fn rtp_low_payload_type_escape_hatch() {
    // payload type 0: reserved/static numbers are deliberately routed to RTP.
    assert_eq!(classify(&[0x80, 0x00, 0x00]), Some(MultiplexKind::Rtp));
    // payload type 63: top of the escape-hatch range.
    assert_eq!(classify(&[0x80, 0x3f, 0x00]), Some(MultiplexKind::Rtp));
    // marker bit set, masked off by 0x7f: 0x80 & 0x7f == 0.
    assert_eq!(classify(&[0x80, 0x80, 0x00]), Some(MultiplexKind::Rtp));
}

#[test]
fn rtcp_payload_type_range() {
    // the scenario from the wire: payload type 0x4a == 74.
    assert_eq!(classify(&[0x80, 0x4a, 0x00]), Some(MultiplexKind::Rtcp));
    assert_eq!(classify(&[0x80, 0x40, 0x00]), Some(MultiplexKind::Rtcp));
    assert_eq!(classify(&[0x80, 0x5f, 0x00]), Some(MultiplexKind::Rtcp));
    // RTCP sender report, packet type 200: 0xc8 & 0x7f == 72.
    assert_eq!(classify(&[0x80, 0xc8, 0x00]), Some(MultiplexKind::Rtcp));
}

#[test]
fn rtp_dynamic_payload_type() {
    // the scenario from the wire: payload type 0x60 == 96.
    assert_eq!(classify(&[0x80, 0x60, 0x00]), Some(MultiplexKind::Rtp));
    assert_eq!(classify(&[0x80, 0x7f, 0x00]), Some(MultiplexKind::Rtp));
    assert_eq!(classify(&[0x80, 0xff, 0x00]), Some(MultiplexKind::Rtp));
}

#[test]
fn rtp_first_byte_boundaries() {
    assert_eq!(classify(&[128, 0x60, 0x00]), Some(MultiplexKind::Rtp));
    assert_eq!(classify(&[191, 0x60, 0x00]), Some(MultiplexKind::Rtp));
    assert_eq!(classify(&[127, 0x60, 0x00]), None);
    assert_eq!(classify(&[192, 0x60, 0x00]), None);
}

#[test]
fn rtp_length_guard() {
    // two bytes are not enough for the RTP/RTCP ranges.
    assert_eq!(classify(&[0x80, 0x00]), None);
    assert_eq!(classify(&[0x80]), None);
}

#[test]
fn empty_datagram_is_unrecognized() {
    assert_eq!(classify(&[]), None);
}

#[test]
fn gap_first_bytes_are_unrecognized() {
    assert_eq!(classify(&[0x0a]), None);
    assert_eq!(classify(&[0x02]), None);
    assert_eq!(classify(&[0x13]), None);
    let mut long = vec![0u8; 64];
    long[0] = 0x65;
    assert_eq!(classify(&long), None);
    long[0] = 0xff;
    assert_eq!(classify(&long), None);
}

#[test]
fn unrecognized_error_detail() {
    let err = MultiplexKind::try_from(&[0x0a]).unwrap_err();
    assert_eq!(err.kind, IoErrorKind::InvalidData);
    assert_eq!(err.message, "Unknown datagram");
}

#[test]
fn mtu_constant() {
    assert_eq!(DATAGRAM_MTU, 1500);
}
