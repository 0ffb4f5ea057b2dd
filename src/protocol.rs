use vstd::prelude::*;

verus! {

/// Kind of a datagram, carried in bits 5 and 4 of its header byte.
#[derive(PartialEq, Eq, Structural, Clone, Copy, Debug)]
pub enum PacketType {
    Handshake,
    Button,
    Control,
    Card,
}

/// Decoded header byte of a datagram.
#[derive(PartialEq, Eq, Structural, Clone, Copy, Debug)]
pub struct PacketHeader {
    pub is_tcp: bool,
    pub is_server: bool,
    pub packet_type: PacketType,
}

/// The two-party agreement on the single "active" flag.
#[derive(PartialEq, Eq, Structural, Clone, Copy, Debug)]
pub struct HandshakePayload {
    pub client_current: bool,
    pub server_current: bool,
    pub client_target: bool,
    pub server_target: bool,
}

/// One snapshot of the sensor channels, one byte (0 or 1) per channel.
#[derive(Clone, Copy, Debug)]
pub struct ControlPayload {
    pub air: [u8; 6],
    pub slider: [u8; 32],
}

/// Stateless codec between datagram bytes and typed payloads.
pub struct ProtocolParser;

/// Bit `i` of `b` (bit 0 is the least significant).
pub open spec fn bit_of(b: u8, i: u8) -> bool {
    (b >> i) & 1u8 == 1u8
}

/// Value of a sensor channel read from bit `i` of `b`: 1 when set, else 0.
pub open spec fn channel_of(b: u8, i: u8) -> u8 {
    if bit_of(b, i) { 1u8 } else { 0u8 }
}

/// The packet kind that a 2-bit code stands for.
pub open spec fn packet_type_of_code(code: u8) -> PacketType {
    if code == 0 {
        PacketType::Handshake
    } else if code == 1 {
        PacketType::Button
    } else if code == 2 {
        PacketType::Control
    } else {
        PacketType::Card
    }
}

/// Header decoded from one byte: bit 7, bit 6, then the code in bits 5 and 4.
pub open spec fn header_of(b: u8) -> PacketHeader {
    PacketHeader {
        is_tcp: bit_of(b, 7),
        is_server: bit_of(b, 6),
        packet_type: packet_type_of_code((b >> 4u8) & 3u8),
    }
}

/// Handshake flags read from bits 7, 6, 5 and 4 of a payload byte.
pub open spec fn handshake_of(b: u8) -> HandshakePayload {
    HandshakePayload {
        client_current: bit_of(b, 7),
        server_current: bit_of(b, 6),
        client_target: bit_of(b, 5),
        server_target: bit_of(b, 4),
    }
}

/// Payload byte that packs the four handshake flags into bits 7, 6, 5 and 4.
pub open spec fn handshake_byte(cc: bool, sc: bool, ct: bool, st: bool) -> u8 {
    ((if cc { 0x80u8 } else { 0u8 }) | (if sc { 0x40u8 } else { 0u8 })) | ((if ct {
        0x20u8
    } else {
        0u8
    }) | (if st { 0x10u8 } else { 0u8 }))
}

/// Header byte of every datagram this side sends: not TCP, server origin, Handshake.
pub const RESPONSE_HEADER: u8 = 0x40;

/// Air channel `i` of a control payload: bit `i` of byte 0.
pub open spec fn air_channel(p: Seq<u8>, i: int) -> u8 {
    channel_of(p[0], i as u8)
}

/// Slider channel `j` of a control payload: bit `j % 8` of byte `1 + j / 8`.
pub open spec fn slider_channel(p: Seq<u8>, j: int) -> u8 {
    channel_of(p[1 + j / 8], (j % 8) as u8)
}

/// The 6 air channels that a control payload encodes.
pub open spec fn air_of(p: Seq<u8>) -> Seq<u8> {
    Seq::new(6, |i: int| air_channel(p, i))
}

/// The 32 slider channels that a control payload encodes.
pub open spec fn slider_of(p: Seq<u8>) -> Seq<u8> {
    Seq::new(32, |j: int| slider_channel(p, j))
}

/// `c` holds exactly the channels that the payload `p` encodes.
pub open spec fn control_matches(p: Seq<u8>, c: ControlPayload) -> bool {
    c.air@ == air_of(p) && c.slider@ == slider_of(p)
}

/// The packet kind of a header byte follows the code in bits 5 and 4:
/// `00` Handshake, `01` Button, `10` Control, `11` Card; bits 3 to 0 play no part.
pub proof fn lemma_header_type_table(b: u8)
    ensures
        b & 0x30u8 == 0x00u8 ==> header_of(b).packet_type == PacketType::Handshake,
        b & 0x30u8 == 0x10u8 ==> header_of(b).packet_type == PacketType::Button,
        b & 0x30u8 == 0x20u8 ==> header_of(b).packet_type == PacketType::Control,
        b & 0x30u8 == 0x30u8 ==> header_of(b).packet_type == PacketType::Card,
        header_of(b) == header_of(b & 0xF0u8),
{
    assert(b & 0x30u8 == 0x00u8 ==> (b >> 4u8) & 3u8 == 0u8) by (bit_vector);
    assert(b & 0x30u8 == 0x10u8 ==> (b >> 4u8) & 3u8 == 1u8) by (bit_vector);
    assert(b & 0x30u8 == 0x20u8 ==> (b >> 4u8) & 3u8 == 2u8) by (bit_vector);
    assert(b & 0x30u8 == 0x30u8 ==> (b >> 4u8) & 3u8 == 3u8) by (bit_vector);
    assert((b >> 4u8) & 3u8 == ((b & 0xF0u8) >> 4u8) & 3u8) by (bit_vector);
    assert((b >> 7u8) & 1u8 == ((b & 0xF0u8) >> 7u8) & 1u8) by (bit_vector);
    assert((b >> 6u8) & 1u8 == ((b & 0xF0u8) >> 6u8) & 1u8) by (bit_vector);
}

/// Decoding the payload byte of an encoded handshake response gives back the
/// four flags it was built from.
pub proof fn lemma_handshake_round_trip(cc: bool, sc: bool, ct: bool, st: bool)
    ensures
        handshake_of(handshake_byte(cc, sc, ct, st)) == (HandshakePayload {
            client_current: cc,
            server_current: sc,
            client_target: ct,
            server_target: st,
        }),
{
    let a: u8 = if cc { 0x80u8 } else { 0u8 };
    let b: u8 = if sc { 0x40u8 } else { 0u8 };
    let c: u8 = if ct { 0x20u8 } else { 0u8 };
    let d: u8 = if st { 0x10u8 } else { 0u8 };
    let x = (a | b) | (c | d);
    assert(x == handshake_byte(cc, sc, ct, st));
    assert((a == 0x80u8 || a == 0u8) && (b == 0x40u8 || b == 0u8) && (c == 0x20u8 || c == 0u8)
        && (d == 0x10u8 || d == 0u8) ==> (((((a | b) | (c | d)) >> 7u8) & 1u8 == 1u8) == (a
        == 0x80u8) && ((((a | b) | (c | d)) >> 6u8) & 1u8 == 1u8) == (b == 0x40u8) && ((((a
        | b) | (c | d)) >> 5u8) & 1u8 == 1u8) == (c == 0x20u8) && ((((a | b) | (c | d))
        >> 4u8) & 1u8 == 1u8) == (d == 0x10u8))) by (bit_vector);
}

impl ProtocolParser {
    /// Decodes a header byte. Every byte is a valid header, so the result is
    /// always `Some`.
    pub fn parse_header(header: u8) -> (r: Option<PacketHeader>)
        ensures
            r == Some(header_of(header)),
    {
        let is_tcp = (header >> 7u8) & 1u8 == 1u8;
        let is_server = (header >> 6u8) & 1u8 == 1u8;
        let type_bits: u8 = (header >> 4u8) & 3u8;
        let packet_type = if type_bits == 0 {
            PacketType::Handshake
        } else if type_bits == 1 {
            PacketType::Button
        } else if type_bits == 2 {
            PacketType::Control
        } else {
            PacketType::Card
        };
        Some(PacketHeader { is_tcp, is_server, packet_type })
    }

    /// Reads the four handshake flags from bits 7, 6, 5 and 4.
    pub fn parse_handshake(payload_byte: u8) -> (r: HandshakePayload)
        ensures
            r == handshake_of(payload_byte),
    {
        HandshakePayload {
            client_current: (payload_byte >> 7u8) & 1u8 == 1u8,
            server_current: (payload_byte >> 6u8) & 1u8 == 1u8,
            client_target: (payload_byte >> 5u8) & 1u8 == 1u8,
            server_target: (payload_byte >> 4u8) & 1u8 == 1u8,
        }
    }

    /// Builds the 2-byte handshake datagram: the server-origin Handshake
    /// header, then the packed flags.
    pub fn build_handshake_response(
        client_current: bool,
        server_current: bool,
        client_target: bool,
        server_target: bool,
    ) -> (r: [u8; 2])
        ensures
            r[0] == RESPONSE_HEADER,
            r[1] == handshake_byte(client_current, server_current, client_target, server_target),
    {
        let cc: u8 = if client_current { 0x80 } else { 0 };
        let sc: u8 = if server_current { 0x40 } else { 0 };
        let ct: u8 = if client_target { 0x20 } else { 0 };
        let st: u8 = if server_target { 0x10 } else { 0 };
        [RESPONSE_HEADER, (cc | sc) | (ct | st)]
    }

    /// Decodes a control payload: 6 air channels from byte 0, then 32 slider
    /// channels from bytes 1 to 4, lowest bit first. `None` when fewer than
    /// 5 bytes are given; bytes past the fifth are ignored.
    pub fn parse_control(payload: &[u8]) -> (r: Option<ControlPayload>)
        ensures
            payload@.len() < 5 <==> r is None,
            r matches Some(c) ==> control_matches(payload@, c),
    {
        if payload.len() < 5 {
            return None;
        }
        let mut air = [0u8; 6];
        let air_byte = payload[0];
        let mut i: usize = 0;
        while i < 6
            invariant
                i <= 6,
                air_byte == payload@[0],
                payload@.len() >= 5,
                forall|k: int| 0 <= k < i ==> #[trigger] air@[k] == air_channel(payload@, k),
            decreases 6 - i,
        {
            air[i] = if (air_byte >> (i as u8)) & 1u8 == 1u8 { 1 } else { 0 };
            i += 1;
        }
        let mut slider = [0u8; 32];
        let mut byte_idx: usize = 0;
        while byte_idx < 4
            invariant
                byte_idx <= 4,
                payload@.len() >= 5,
                forall|k: int|
                    0 <= k < 8 * byte_idx ==> #[trigger] slider@[k] == slider_channel(payload@, k),
            decreases 4 - byte_idx,
        {
            let current_byte = payload[byte_idx + 1];
            let mut bit_idx: usize = 0;
            while bit_idx < 8
                invariant
                    byte_idx < 4,
                    bit_idx <= 8,
                    payload@.len() >= 5,
                    current_byte == payload@[byte_idx + 1],
                    forall|k: int|
                        0 <= k < 8 * byte_idx + bit_idx ==> #[trigger] slider@[k]
                            == slider_channel(payload@, k),
                decreases 8 - bit_idx,
            {
                let global_idx = byte_idx * 8 + bit_idx;
                slider[global_idx] = if (current_byte >> (bit_idx as u8)) & 1u8 == 1u8 {
                    1
                } else {
                    0
                };
                assert(global_idx / 8 == byte_idx && global_idx % 8 == bit_idx);
                bit_idx += 1;
            }
            byte_idx += 1;
        }
        assert(air@ =~= air_of(payload@));
        assert(slider@ =~= slider_of(payload@));
        Some(ControlPayload { air, slider })
    }

    /// The first 10 bytes of a card payload, verbatim (a BCD card number).
    /// `None` when fewer than 10 bytes are given.
    pub fn parse_card(payload: &[u8]) -> (r: Option<[u8; 10]>)
        ensures
            payload@.len() < 10 <==> r is None,
            r matches Some(code) ==> code@ == payload@.subrange(0, 10),
    {
        if payload.len() < 10 {
            return None;
        }
        let mut code = [0u8; 10];
        let mut i: usize = 0;
        while i < 10
            invariant
                i <= 10,
                payload@.len() >= 10,
                forall|k: int| 0 <= k < i ==> #[trigger] code@[k] == payload@[k],
            decreases 10 - i,
        {
            code[i] = payload[i];
            i += 1;
        }
        assert(code@ =~= payload@.subrange(0, 10));
        Some(code)
    }

    /// The 20 decimal digits of a BCD card number for display: the high then
    /// the low nibble of each byte.
    pub fn card_digits(code: &[u8; 10]) -> (r: [u8; 20])
        ensures
            forall|k: int| 0 <= k < 10 ==> #[trigger] r@[2 * k] == code@[k] / 16 && r@[2 * k + 1] == code@[k] % 16,
    {
        let mut digits = [0u8; 20];
        let mut i: usize = 0;
        while i < 10
            invariant
                i <= 10,
                forall|k: int| 0 <= k < i ==> #[trigger] digits@[2 * k] == code@[k] / 16 && digits@[2 * k + 1] == code@[k] % 16,
            decreases 10 - i,
        {
            let b = code[i];
            digits[2 * i] = b / 16;
            digits[2 * i + 1] = b % 16;
            i += 1;
        }
        digits
    }
}

} // verus!
