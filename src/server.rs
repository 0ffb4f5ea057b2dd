use vstd::prelude::*;

use vstd::slice::{slice_subrange, slice_to_vec};

use crate::api::{
    business_next, business_report_is, handle_handshake, handshake_next, handshake_reaction_is,
    button_flags, is_quiet, report_to_flutter, Backend, Reaction, SegmentWrite,
};
use crate::protocol::{
    handshake_byte, handshake_of, header_of, HandshakePayload, PacketType, ProtocolParser,
    RESPONSE_HEADER,
};
use crate::shmem::segment_view;

verus! {

/// Where and how the server listens.
pub struct ServerConfig {
    pub port: u16,
    pub protocol: String,
}

/// The session's state as the contracts see it.
pub struct ServerView {
    /// The receive loop is meant to run.
    pub running: bool,
    /// Button, Control and Card packets take effect.
    pub active: bool,
    /// A peer address has been seen or given.
    pub peer_known: bool,
    /// A socket handle is held for sends outside the receive loop.
    pub socket_open: bool,
}

/// State of the one UDP session: the running and active flags, whether the
/// last peer is known, and whether an outbound socket is held. The socket and
/// the address themselves live with the caller that does the I/O.
pub struct SensorServer {
    is_running: bool,
    is_active: bool,
    peer_known: bool,
    socket_open: bool,
}

impl View for SensorServer {
    type V = ServerView;

    closed spec fn view(&self) -> ServerView {
        ServerView {
            running: self.is_running,
            active: self.is_active,
            peer_known: self.peer_known,
            socket_open: self.socket_open,
        }
    }
}

/// State after `start`, and whether a socket must be bound and the receive
/// loop launched.
pub open spec fn start_next(s: ServerView) -> (ServerView, bool) {
    if s.running {
        (s, false)
    } else {
        (ServerView { running: true, ..s }, true)
    }
}

/// State after `stop`.
pub open spec fn stop_next(s: ServerView) -> ServerView {
    ServerView { running: false, ..s }
}

/// Calling `start` on a server that runs binds nothing and changes nothing,
/// so a second `start` neither binds again nor resets the active flag.
pub proof fn lemma_start_idempotent(s: ServerView)
    ensures
        start_next(start_next(s).0) == (start_next(s).0, false),
        start_next(s).0.active == s.active,
{
}

/// Stopping a stopped server changes nothing.
pub proof fn lemma_stop_when_stopped(s: ServerView)
    requires
        !s.running,
    ensures
        stop_next(s) == s,
{
}

impl SensorServer {
    /// A stopped, inactive server with no peer and no socket.
    pub fn new() -> (r: Self)
        ensures
            r@ == (ServerView { running: false, active: false, peer_known: false, socket_open: false }),
    {
        SensorServer { is_running: false, is_active: false, peer_known: false, socket_open: false }
    }

    pub fn set_active(&mut self, active: bool)
        ensures
            final(self)@ == (ServerView { active, ..old(self)@ }),
    {
        self.is_active = active;
    }

    pub fn is_active_status(&self) -> (r: bool)
        ensures
            r == self@.active,
    {
        self.is_active
    }

    pub fn is_running_status(&self) -> (r: bool)
        ensures
            r == self@.running,
    {
        self.is_running
    }

    /// Marks the server running. Returns true when the caller must bind a
    /// socket on `port` and launch the receive loop; false, with nothing
    /// changed, when the server already runs.
    pub fn start(&mut self, port: u16) -> (r: bool)
        ensures
            (final(self)@, r) == start_next(old(self)@),
    {
        if self.is_running {
            return false;
        }
        self.is_running = true;
        true
    }

    /// Asks the receive loop to stop; it exits on its next wake-up.
    pub fn stop(&mut self)
        ensures
            final(self)@ == stop_next(old(self)@),
    {
        self.is_running = false;
    }

    /// The socket could not be bound: the server is stopped again.
    pub fn on_bind_failed(&mut self)
        ensures
            final(self)@ == stop_next(old(self)@),
    {
        self.is_running = false;
    }

    /// The receive loop holds a socket that others may send through.
    pub fn on_socket_ready(&mut self)
        ensures
            final(self)@ == (ServerView { socket_open: true, ..old(self)@ }),
    {
        self.socket_open = true;
    }

    /// The receive loop has exited and released its socket.
    pub fn on_loop_exit(&mut self)
        ensures
            final(self)@ == (ServerView { socket_open: false, ..old(self)@ }),
    {
        self.socket_open = false;
    }

    /// A peer address is known, given from outside or seen on a datagram.
    pub fn record_peer(&mut self)
        ensures
            final(self)@ == (ServerView { peer_known: true, ..old(self)@ }),
    {
        self.peer_known = true;
    }

    /// The handshake datagram to send to the last peer, or `None` when no peer
    /// is known or no socket is held.
    pub fn send_handshake(&self, p: HandshakePayload) -> (r: Option<[u8; 2]>)
        ensures
            r is Some <==> self@.peer_known && self@.socket_open,
            r matches Some(d) ==> d[0] == RESPONSE_HEADER && d[1] == handshake_byte(
                p.client_current,
                p.server_current,
                p.client_target,
                p.server_target,
            ),
    {
        if self.peer_known && self.socket_open {
            Some(
                ProtocolParser::build_handshake_response(
                    p.client_current,
                    p.server_current,
                    p.client_target,
                    p.server_target,
                ),
            )
        } else {
            None
        }
    }
}

/// `s` once the sender of a datagram is known.
pub open spec fn with_peer(s: ServerView) -> ServerView {
    ServerView { peer_known: true, ..s }
}

/// One step of the receive loop: the datagram `buf` has arrived. The sender
/// becomes the last peer. While the server runs, a Handshake is applied
/// whatever the active flag; a Button, Control or Card packet is written to
/// the segment and reported only while the server is active. A datagram that
/// is empty or too short for its kind has no other effect.
pub fn handle_datagram(backend: &mut Backend, buf: &[u8]) -> (r: Reaction)
    ensures
        ({
            let s = old(backend).server@;
            let seg = segment_view(old(backend).shmem);
            let sink = old(backend).sink_attached;
            let accepted = s.running && buf@.len() > 0;
            let ty = header_of(buf@[0]).packet_type;
            let payload = buf@.subrange(1, buf@.len() as int);
            &&& final(backend).sink_attached == sink
            &&& !accepted ==> final(backend).server@ == with_peer(s)
                && segment_view(final(backend).shmem) == seg && is_quiet(r)
            &&& accepted && ty == PacketType::Handshake ==> {
                &&& segment_view(final(backend).shmem) == seg
                &&& payload.len() == 0 ==> final(backend).server@ == with_peer(s) && is_quiet(r)
                &&& payload.len() > 0 ==> final(backend).server@ == handshake_next(
                    with_peer(s),
                    handshake_of(payload[0]),
                ) && handshake_reaction_is(r, with_peer(s), sink, handshake_of(payload[0]))
            }
            &&& accepted && ty != PacketType::Handshake && !s.active ==> final(backend).server@
                == with_peer(s) && segment_view(final(backend).shmem) == seg && is_quiet(r)
            &&& accepted && ty != PacketType::Handshake && s.active ==> {
                &&& final(backend).server@ == with_peer(s)
                &&& (segment_view(final(backend).shmem), r.write) == business_next(seg, ty, payload)
                &&& business_report_is(r.report, sink, ty, payload)
                &&& r.reply is None
            }
        }),
{
    backend.server.record_peer();
    let quiet = Reaction { write: SegmentWrite::Nothing, report: None, reply: None };
    if buf.len() == 0 || !backend.server.is_running_status() {
        return quiet;
    }
    let header = match ProtocolParser::parse_header(buf[0]) {
        Some(h) => h,
        None => return quiet,
    };
    let payload = slice_subrange(buf, 1, buf.len());
    if header.packet_type == PacketType::Handshake {
        if payload.len() == 0 {
            return quiet;
        }
        let incoming = ProtocolParser::parse_handshake(payload[0]);
        return handle_handshake(backend, incoming);
    }
    if !backend.server.is_active_status() {
        return quiet;
    }
    match header.packet_type {
        PacketType::Button => {
            let mask: u8 = if payload.len() > 0 { payload[0] } else { 0 };
            let coin: u8 = if mask & 1u8 == 1u8 { 1 } else { 0 };
            let service: u8 = if (mask >> 1u8) & 1u8 == 1u8 { 1 } else { 0 };
            let test: u8 = if (mask >> 2u8) & 1u8 == 1u8 { 1 } else { 0 };
            assert(mask >> 0u8 == mask) by (bit_vector);
            backend.write_status(coin, service, test);
            let air = vec![0u8; 6];
            let slider = vec![0u8; 32];
            assert(air@ =~= Seq::new(6, |i: int| 0u8));
            assert(slider@ =~= Seq::new(32, |i: int| 0u8));
            let code = [0u8; 10];
            assert(code@ =~= Seq::new(10, |i: int| 0u8));
            assert(button_flags(payload@) == (coin, service, test));
            let report = report_to_flutter(backend, air, slider, coin, service, test, code);
            Reaction { write: SegmentWrite::Status, report, reply: None }
        },
        PacketType::Control => {
            match ProtocolParser::parse_control(payload) {
                Some(ctrl) => {
                    backend.write_samples(&ctrl.air, &ctrl.slider);
                    let code = [0u8; 10];
                    assert(code@ =~= Seq::new(10, |i: int| 0u8));
                    let report = report_to_flutter(
                        backend,
                        slice_to_vec(ctrl.air.as_slice()),
                        slice_to_vec(ctrl.slider.as_slice()),
                        0,
                        0,
                        0,
                        code,
                    );
                    Reaction { write: SegmentWrite::Samples, report, reply: None }
                },
                None => quiet,
            }
        },
        _ => {
            if payload.len() < 10 {
                return quiet;
            }
            let raw_bcd = slice_subrange(payload, 0, 10);
            backend.write_card(raw_bcd);
            match ProtocolParser::parse_card(raw_bcd) {
                Some(code) => {
                    assert(raw_bcd@.subrange(0, 10) =~= raw_bcd@);
                    let air = vec![0u8; 6];
                    let slider = vec![0u8; 32];
                    assert(air@ =~= Seq::new(6, |i: int| 0u8));
                    assert(slider@ =~= Seq::new(32, |i: int| 0u8));
                    let report = report_to_flutter(
                        backend,
                        air,
                        slider,
                        0,
                        0,
                        0,
                        code,
                    );
                    Reaction { write: SegmentWrite::Card, report, reply: None }
                },
                None => quiet,
            }
        },
    }
}

} // verus!
