use vstd::prelude::*;

use crate::protocol::{
    air_of, channel_of, handshake_byte, handshake_of, slider_of, HandshakePayload, PacketType,
    RESPONSE_HEADER,
};
use crate::server::{start_next, stop_next, SensorServer, ServerView};
use crate::shmem::{card_written, samples_written, segment_view, status_written, ShmemManager};

verus! {

/// One decoded sample handed to the observer.
#[derive(Debug)]
pub struct SensorData {
    pub air: Vec<u8>,
    pub slider: Vec<u8>,
    pub coin: u8,
    pub service: u8,
    pub test: u8,
    pub code: [u8; 10],
}

/// `d` carries exactly these values.
pub open spec fn sample_is(
    d: SensorData,
    air: Seq<u8>,
    slider: Seq<u8>,
    coin: u8,
    service: u8,
    test: u8,
    code: Seq<u8>,
) -> bool {
    d.air@ == air && d.slider@ == slider && d.coin == coin && d.service == service && d.test
        == test && d.code@ == code
}

/// `d` is the all-zero sample that signals a change of the active flag.
pub open spec fn is_zero_sample(d: SensorData) -> bool {
    sample_is(
        d,
        Seq::new(6, |i: int| 0u8),
        Seq::new(32, |i: int| 0u8),
        0,
        0,
        0,
        Seq::new(10, |i: int| 0u8),
    )
}

/// Which region of the segment a datagram was written to.
#[derive(PartialEq, Eq, Structural, Clone, Copy, Debug)]
pub enum SegmentWrite {
    Nothing,
    Samples,
    Status,
    Card,
}

/// What the caller must carry out after one step of the session: copy a
/// region of the segment out, hand a sample to the observer, send a datagram
/// to the last peer.
#[derive(Debug)]
pub struct Reaction {
    pub write: SegmentWrite,
    pub report: Option<SensorData>,
    pub reply: Option<[u8; 2]>,
}

/// The context of one process: the session, the segment once it is
/// installed, and whether an observer listens.
pub struct Backend {
    pub server: SensorServer,
    pub shmem: Option<ShmemManager>,
    pub sink_attached: bool,
}

/// The handshake this side answers with once its active flag is `now_active`.
pub open spec fn handshake_response(incoming: HandshakePayload, now_active: bool) -> HandshakePayload {
    HandshakePayload {
        client_current: incoming.client_current,
        server_current: now_active,
        client_target: incoming.client_target,
        server_target: now_active,
    }
}

/// The datagram that carries handshake `p`.
pub open spec fn handshake_datagram(p: HandshakePayload) -> Seq<u8> {
    seq![
        RESPONSE_HEADER,
        handshake_byte(p.client_current, p.server_current, p.client_target, p.server_target),
    ]
}

/// `reply` is `p` sent to the peer when `s` can send, else nothing.
pub open spec fn reply_is(reply: Option<[u8; 2]>, s: ServerView, p: HandshakePayload) -> bool {
    if s.peer_known && s.socket_open {
        reply matches Some(d) && d@ == handshake_datagram(p)
    } else {
        reply is None
    }
}

/// Session state after a handshake from the device: while running, its
/// `client_target` becomes the active flag.
pub open spec fn handshake_next(s: ServerView, incoming: HandshakePayload) -> ServerView {
    if s.running {
        ServerView { active: incoming.client_target, ..s }
    } else {
        s
    }
}

/// The reaction of a session in state `s` to handshake `incoming`: a zero
/// sample when the active flag changes and an observer listens, and the reply
/// with the now current flag whenever the peer can be reached.
pub open spec fn handshake_reaction_is(
    r: Reaction,
    s: ServerView,
    sink: bool,
    incoming: HandshakePayload,
) -> bool {
    &&& r.write == SegmentWrite::Nothing
    &&& if s.running {
        &&& (r.report is Some <==> sink && incoming.client_target != s.active)
        &&& (r.report matches Some(d) ==> is_zero_sample(d))
        &&& reply_is(r.reply, s, handshake_response(incoming, incoming.client_target))
    } else {
        r.report is None && r.reply is None
    }
}

/// The reaction that carries nothing out.
pub open spec fn is_quiet(r: Reaction) -> bool {
    r.write == SegmentWrite::Nothing && r.report is None && r.reply is None
}

/// The coin, service and test flags of a Button payload: bits 0, 1 and 2 of
/// its first byte, all clear when it is empty.
pub open spec fn button_flags(payload: Seq<u8>) -> (u8, u8, u8) {
    let mask = if payload.len() > 0 { payload[0] } else { 0u8 };
    (channel_of(mask, 0), channel_of(mask, 1), channel_of(mask, 2))
}

/// The segment, and the region written, after an accepted Button, Control or
/// Card payload; a Control or Card payload that is too short writes nothing.
pub open spec fn business_next(
    seg: Option<Seq<u8>>,
    ty: PacketType,
    payload: Seq<u8>,
) -> (Option<Seq<u8>>, SegmentWrite) {
    match ty {
        PacketType::Button => {
            let (coin, service, test) = button_flags(payload);
            (
                match seg {
                    Some(m) => Some(status_written(m, coin, service, test)),
                    None => None,
                },
                SegmentWrite::Status,
            )
        },
        PacketType::Control => if payload.len() >= 5 {
            (
                match seg {
                    Some(m) => Some(samples_written(m, air_of(payload), slider_of(payload))),
                    None => None,
                },
                SegmentWrite::Samples,
            )
        } else {
            (seg, SegmentWrite::Nothing)
        },
        PacketType::Card => if payload.len() >= 10 {
            (
                match seg {
                    Some(m) => Some(card_written(m, payload.subrange(0, 10))),
                    None => None,
                },
                SegmentWrite::Card,
            )
        } else {
            (seg, SegmentWrite::Nothing)
        },
        PacketType::Handshake => (seg, SegmentWrite::Nothing),
    }
}

/// The sample reported for an accepted Button, Control or Card payload: one
/// when an observer listens and the payload was written, carrying the decoded
/// values and zeros elsewhere.
pub open spec fn business_report_is(
    report: Option<SensorData>,
    sink: bool,
    ty: PacketType,
    payload: Seq<u8>,
) -> bool {
    let z6 = Seq::new(6, |i: int| 0u8);
    let z32 = Seq::new(32, |i: int| 0u8);
    let z10 = Seq::new(10, |i: int| 0u8);
    &&& (report is Some <==> sink && business_next(None, ty, payload).1 != SegmentWrite::Nothing)
    &&& report matches Some(d) ==> match ty {
        PacketType::Button => {
            let (coin, service, test) = button_flags(payload);
            sample_is(d, z6, z32, coin, service, test, z10)
        },
        PacketType::Control => sample_is(d, air_of(payload), slider_of(payload), 0, 0, 0, z10),
        PacketType::Card => sample_is(d, z6, z32, 0, 0, 0, payload.subrange(0, 10)),
        PacketType::Handshake => false,
    }
}

/// A handshake from the device takes its `client_target` as the new active
/// flag. When the server is inactive and running and the device asks for
/// `true`, the flag flips to true, exactly one zero sample reports the flip to
/// a listening observer, and the reply states
/// `server_current = server_target = true`.
pub proof fn lemma_handshake_converges(
    s: ServerView,
    sink: bool,
    incoming: HandshakePayload,
    r: Reaction,
)
    requires
        s.running,
        !s.active,
        incoming.client_target,
        handshake_reaction_is(r, s, sink, incoming),
    ensures
        handshake_next(s, incoming).active,
        sink ==> (r.report matches Some(d) && is_zero_sample(d)),
        !sink ==> r.report is None,
        r.write == SegmentWrite::Nothing,
        r.reply matches Some(d) ==> handshake_of(d[1]).server_current && handshake_of(
            d[1],
        ).server_target,
{
    let p = handshake_response(incoming, incoming.client_target);
    crate::protocol::lemma_handshake_round_trip(
        p.client_current,
        p.server_current,
        p.client_target,
        p.server_target,
    );
}

/// An accepted Button packet, a Control packet of at least 5 bytes and a Card
/// packet of at least 10 bytes each write one region of an installed segment,
/// and are reported once to a listening observer.
pub proof fn lemma_business_packet_effects(
    m: Seq<u8>,
    sink: bool,
    ty: PacketType,
    payload: Seq<u8>,
    report: Option<SensorData>,
)
    requires
        ty != PacketType::Handshake,
        ty == PacketType::Control ==> payload.len() >= 5,
        ty == PacketType::Card ==> payload.len() >= 10,
        business_report_is(report, sink, ty, payload),
    ensures
        business_next(Some(m), ty, payload).0 is Some,
        business_next(Some(m), ty, payload).1 != SegmentWrite::Nothing,
        report is Some <==> sink,
{
}

impl Backend {
    /// Writes the sensor channels into the segment, if one is installed.
    pub fn write_samples(&mut self, air: &[u8], slider: &[u8])
        ensures
            segment_view(final(self).shmem) == match segment_view(old(self).shmem) {
                Some(m) => Some(samples_written(m, air@, slider@)),
                None => None,
            },
            final(self).server@ == old(self).server@,
            final(self).sink_attached == old(self).sink_attached,
    {
        match self.shmem.take() {
            Some(mut manager) => {
                manager.write_data(air, slider);
                self.shmem = Some(manager);
            },
            None => {},
        }
    }

    /// Writes the button flags into the segment, if one is installed.
    pub fn write_status(&mut self, coin: u8, service: u8, test: u8)
        ensures
            segment_view(final(self).shmem) == match segment_view(old(self).shmem) {
                Some(m) => Some(status_written(m, coin, service, test)),
                None => None,
            },
            final(self).server@ == old(self).server@,
            final(self).sink_attached == old(self).sink_attached,
    {
        match self.shmem.take() {
            Some(mut manager) => {
                manager.write_status(coin, service, test);
                self.shmem = Some(manager);
            },
            None => {},
        }
    }

    /// Writes a raw card number into the segment, if one is installed.
    pub fn write_card(&mut self, raw_bcd: &[u8])
        ensures
            segment_view(final(self).shmem) == match segment_view(old(self).shmem) {
                Some(m) => Some(card_written(m, raw_bcd@)),
                None => None,
            },
            final(self).server@ == old(self).server@,
            final(self).sink_attached == old(self).sink_attached,
    {
        match self.shmem.take() {
            Some(mut manager) => {
                manager.write_card_raw(raw_bcd);
                self.shmem = Some(manager);
            },
            None => {},
        }
    }

    /// A stopped server, no segment, no observer.
    pub fn new() -> (r: Self)
        ensures
            r.server@ == (ServerView {
                running: false,
                active: false,
                peer_known: false,
                socket_open: false,
            }),
            r.shmem is None,
            !r.sink_attached,
    {
        Backend { server: SensorServer::new(), shmem: None, sink_attached: false }
    }
}

/// An observer now listens for samples.
pub fn create_sensor_stream(backend: &mut Backend)
    ensures
        final(backend).sink_attached,
        final(backend).server@ == old(backend).server@,
        segment_view(final(backend).shmem) == segment_view(old(backend).shmem),
{
    backend.sink_attached = true;
}

/// The sample for the observer, or `None` when no observer listens.
pub fn report_to_flutter(
    backend: &Backend,
    air: Vec<u8>,
    slider: Vec<u8>,
    coin: u8,
    service: u8,
    test: u8,
    code: [u8; 10],
) -> (r: Option<SensorData>)
    ensures
        r is Some <==> backend.sink_attached,
        r matches Some(d) ==> sample_is(d, air@, slider@, coin, service, test, code@),
{
    if backend.sink_attached {
        Some(SensorData { air, slider, coin, service, test, code })
    } else {
        None
    }
}

/// The all-zero sample, or `None` when no observer listens.
fn report_zero(backend: &Backend) -> (r: Option<SensorData>)
    ensures
        r is Some <==> backend.sink_attached,
        r matches Some(d) ==> is_zero_sample(d),
{
    let air = vec![0u8; 6];
    let slider = vec![0u8; 32];
    let code = [0u8; 10];
    assert(air@ =~= Seq::new(6, |i: int| 0u8));
    assert(slider@ =~= Seq::new(32, |i: int| 0u8));
    assert(code@ =~= Seq::new(10, |i: int| 0u8));
    report_to_flutter(backend, air, slider, 0, 0, 0, code)
}

/// Writes sensor channels and button flags into the segment, if one is
/// installed.
pub fn sync_to_shmem(
    backend: &mut Backend,
    air: Vec<u8>,
    slider: Vec<u8>,
    coin: u8,
    service: u8,
    test: u8,
)
    ensures
        segment_view(final(backend).shmem) == match segment_view(old(backend).shmem) {
            Some(m) => Some(status_written(samples_written(m, air@, slider@), coin, service, test)),
            None => None,
        },
        final(backend).server@ == old(backend).server@,
        final(backend).sink_attached == old(backend).sink_attached,
{
    match backend.shmem.take() {
        Some(mut manager) => {
            manager.write_data(air.as_slice(), slider.as_slice());
            manager.write_status(coin, service, test);
            backend.shmem = Some(manager);
        },
        None => {},
    }
}

/// Applies a handshake from the device: while running, its `client_target`
/// becomes the active flag, a change is reported by a zero sample, and the
/// reply carries the now current flag.
pub fn handle_handshake(backend: &mut Backend, incoming: HandshakePayload) -> (r: Reaction)
    ensures
        final(backend).server@ == handshake_next(old(backend).server@, incoming),
        handshake_reaction_is(r, old(backend).server@, old(backend).sink_attached, incoming),
        segment_view(final(backend).shmem) == segment_view(old(backend).shmem),
        final(backend).sink_attached == old(backend).sink_attached,
{
    if !backend.server.is_running_status() {
        return Reaction { write: SegmentWrite::Nothing, report: None, reply: None };
    }
    let current_s = backend.server.is_active_status();
    let new_state = incoming.client_target;
    let mut report = None;
    if new_state != current_s {
        backend.server.set_active(new_state);
        report = report_zero(backend);
    }
    let response = HandshakePayload {
        client_current: incoming.client_current,
        server_current: new_state,
        client_target: incoming.client_target,
        server_target: new_state,
    };
    let reply = backend.server.send_handshake(response);
    proof {
        if let Some(d) = reply {
            assert(d@ =~= handshake_datagram(response));
        }
    }
    Reaction { write: SegmentWrite::Nothing, report, reply }
}

/// Asks the device to flip the active flag; the flag itself changes only when
/// the device answers. The datagram to send, or `None` when the server is not
/// running, no peer is known or no socket is held.
pub fn toggle_sync(backend: &Backend) -> (r: Option<[u8; 2]>)
    ensures
        !backend.server@.running ==> r is None,
        backend.server@.running ==> reply_is(
            r,
            backend.server@,
            HandshakePayload {
                client_current: false,
                server_current: backend.server@.active,
                client_target: !backend.server@.active,
                server_target: !backend.server@.active,
            },
        ),
{
    if !backend.server.is_running_status() {
        return None;
    }
    let current_active = backend.server.is_active_status();
    let next_state = !current_active;
    let payload = HandshakePayload {
        client_current: false,
        server_current: current_active,
        client_target: next_state,
        server_target: next_state,
    };
    let r = backend.server.send_handshake(payload);
    proof {
        if let Some(d) = r {
            assert(d@ =~= handshake_datagram(payload));
        }
    }
    r
}

/// Stops a running server and clears its active flag, or starts a stopped one,
/// which stays inactive until a handshake. Returns the port to bind and run
/// the receive loop on when the server was started.
pub fn toggle_server(backend: &mut Backend, port: u16, is_udp: bool) -> (r: Option<u16>)
    ensures
        old(backend).server@.running ==> final(backend).server@ == (ServerView {
            active: false,
            ..stop_next(old(backend).server@)
        }) && r is None,
        !old(backend).server@.running ==> final(backend).server@ == start_next(
            old(backend).server@,
        ).0 && r == Some(port),
        segment_view(final(backend).shmem) == segment_view(old(backend).shmem),
        final(backend).sink_attached == old(backend).sink_attached,
{
    if backend.server.is_running_status() {
        backend.server.stop();
        backend.server.set_active(false);
        None
    } else {
        if backend.server.start(port) {
            Some(port)
        } else {
            None
        }
    }
}

} // verus!
