use rustnithm::protocol::{HandshakePayload, PacketType, ProtocolParser};

#[test]
fn header_type_follows_code_bits() {
    let h = ProtocolParser::parse_header(0x00).unwrap();
    assert_eq!(h.packet_type, PacketType::Handshake);
    assert_eq!(ProtocolParser::parse_header(0x10).unwrap().packet_type, PacketType::Button);
    assert_eq!(ProtocolParser::parse_header(0x20).unwrap().packet_type, PacketType::Control);
    assert_eq!(ProtocolParser::parse_header(0x30).unwrap().packet_type, PacketType::Card);
}

#[test]
fn header_ignores_low_bits() {
    for hi in 0u8..16 {
        let base = ProtocolParser::parse_header(hi << 4).unwrap();
        for lo in 0u8..16 {
            let h = ProtocolParser::parse_header((hi << 4) | lo).unwrap();
            assert_eq!(h, base);
        }
    }
}

#[test]
fn header_flags_from_top_bits() {
    let h = ProtocolParser::parse_header(0xC0).unwrap();
    assert!(h.is_tcp);
    assert!(h.is_server);
    assert_eq!(h.packet_type, PacketType::Handshake);
    let h = ProtocolParser::parse_header(0x4F).unwrap();
    assert!(!h.is_tcp);
    assert!(h.is_server);
    let h = ProtocolParser::parse_header(0xB0).unwrap();
    assert!(h.is_tcp);
    assert!(!h.is_server);
    assert_eq!(h.packet_type, PacketType::Card);
}

#[test]
fn handshake_flags_from_high_nibble() {
    let p = ProtocolParser::parse_handshake(0b1010_0000);
    assert_eq!(
        p,
        HandshakePayload {
            client_current: true,
            server_current: false,
            client_target: true,
            server_target: false,
        }
    );
    let p = ProtocolParser::parse_handshake(0x0F);
    assert!(!p.client_current && !p.server_current && !p.client_target && !p.server_target);
}

#[test]
fn handshake_response_bytes() {
    assert_eq!(ProtocolParser::build_handshake_response(true, false, true, false), [0x40, 0xA0]);
    assert_eq!(ProtocolParser::build_handshake_response(false, true, false, true), [0x40, 0x50]);
    assert_eq!(ProtocolParser::build_handshake_response(false, false, false, false), [0x40, 0x00]);
    assert_eq!(ProtocolParser::build_handshake_response(true, true, true, true), [0x40, 0xF0]);
}

#[test]
fn handshake_round_trip_all_flags() {
    for bits in 0u8..16 {
        let a = bits & 8 != 0;
        let b = bits & 4 != 0;
        let c = bits & 2 != 0;
        let d = bits & 1 != 0;
        let out = ProtocolParser::build_handshake_response(a, b, c, d);
        let header = ProtocolParser::parse_header(out[0]).unwrap();
        assert_eq!(header.packet_type, PacketType::Handshake);
        assert!(!header.is_tcp);
        assert!(header.is_server);
        assert_eq!(
            ProtocolParser::parse_handshake(out[1]),
            HandshakePayload { client_current: a, server_current: b, client_target: c, server_target: d }
        );
    }
}

#[test]
fn control_too_short_is_none() {
    assert!(ProtocolParser::parse_control(&[]).is_none());
    assert!(ProtocolParser::parse_control(&[0xFF, 0xFF, 0xFF, 0xFF]).is_none());
}

#[test]
fn control_decodes_channels() {
    let c = ProtocolParser::parse_control(&[0b1110_0001, 0x01, 0x80, 0x00, 0xFF]).unwrap();
    assert_eq!(c.air, [1, 0, 0, 0, 0, 1]);
    let mut slider = [0u8; 32];
    slider[0] = 1;
    slider[15] = 1;
    for s in slider.iter_mut().skip(24) {
        *s = 1;
    }
    assert_eq!(c.slider, slider);
}

#[test]
fn control_ignores_extra_bytes() {
    let c = ProtocolParser::parse_control(&[0x3F, 0, 0, 0, 0, 0xFF, 0xFF]).unwrap();
    assert_eq!(c.air, [1; 6]);
    assert_eq!(c.slider, [0; 32]);
}

#[test]
fn card_too_short_is_none() {
    assert!(ProtocolParser::parse_card(&[1, 2, 3, 4, 5, 6, 7, 8, 9]).is_none());
}

#[test]
fn card_returns_first_ten_bytes() {
    let raw = [0x12, 0x34, 0x56, 0x78, 0x90, 0x12, 0x34, 0x56, 0x78, 0x90, 0xAA, 0xBB];
    let code = ProtocolParser::parse_card(&raw).unwrap();
    assert_eq!(code, [0x12, 0x34, 0x56, 0x78, 0x90, 0x12, 0x34, 0x56, 0x78, 0x90]);
}

#[test]
fn card_digits_split_nibbles() {
    let code = [0x12, 0x34, 0x56, 0x78, 0x90, 0x01, 0x23, 0x45, 0x67, 0x89];
    let d = ProtocolParser::card_digits(&code);
    assert_eq!(d, [1, 2, 3, 4, 5, 6, 7, 8, 9, 0, 0, 1, 2, 3, 4, 5, 6, 7, 8, 9]);
}
