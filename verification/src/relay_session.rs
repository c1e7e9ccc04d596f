//! The relay's session logic as state machines: a host's link to the relay,
//! a browser viewer's admission, and the bridge between a host and a browser.
//! The caller owns the sockets, threads and channels, reads what each step
//! asks for, and performs the actions it returns, in order.
use vstd::prelude::*;
use crate::relay::{
    classify_auth_reply, host_frame_rule, host_payload_len, is_video_lane, session_close,
    session_opening, spec_host_frame_rule, spec_host_payload_len, writer_idle_tick, AuthReply,
    HostFrameRule, SessionClose, ViewerRejection, ViewerRequest,
};
use crate::ws_outbox::VIEWER_LOOKUP_ATTEMPTS;

verus! {

// ---------------------------------------------------------------------------
// The bridge between a host and a browser viewer
// ---------------------------------------------------------------------------
/// A bridged session as the relay sees it.
#[derive(Clone, Copy, Debug)]
pub struct BridgeState {
    /// The session is over; nothing more happens.
    pub ended: bool,
    /// How long the browser writer has had nothing to send (ms, below 100).
    pub idle_ms: u32,
}

/// What happened on one side of the bridge.
pub enum BridgeEvent {
    /// The host sent a packet of this type.
    HostType(u8),
    /// The header of a host packet was read.
    HostHeader { packet_type: u8, header: Vec<u8> },
    /// The payload of a host packet was read.
    HostPayload { packet_type: u8, header: Vec<u8>, payload: Vec<u8> },
    /// Reading from the host failed: it is gone.
    HostEnded,
    /// The browser sent a binary message.
    ViewerBinary(Vec<u8>),
    /// The browser sent a ping with this payload.
    ViewerPing(Vec<u8>),
    /// The browser closed, reading from it failed, or writing to it failed.
    ViewerEnded,
    /// Writing the browser's input to the host failed.
    HostWriteFailed,
    /// The browser writer had nothing to send for 20 ms.
    WriterIdle,
    /// The browser writer sent a message.
    WriterSent,
}

/// What the relay does next.
pub enum BridgeAction {
    /// Read this many header bytes from the host.
    ReadHostHeader(usize),
    /// Read this many payload bytes from the host.
    ReadHostPayload(u64),
    /// Queue a message for the browser, in the video lane or the control lane.
    ToViewer { message: Vec<u8>, video: bool },
    /// Ping the browser.
    Ping,
    /// Answer the browser's ping.
    Pong(Vec<u8>),
    /// Write these bytes to the host.
    ToHost(Vec<u8>),
    /// Close the browser's socket with this code and reason.
    Close(SessionClose),
    /// The bridge is over.
    End,
}

/// An action as plain values.
pub enum BridgeActionView {
    ReadHostHeader(nat),
    ReadHostPayload(nat),
    ToViewer(Seq<u8>, bool),
    Ping,
    Pong(Seq<u8>),
    ToHost(Seq<u8>),
    Close(SessionClose),
    End,
}

impl View for BridgeAction {
    type V = BridgeActionView;

    open spec fn view(&self) -> BridgeActionView {
        match self {
            BridgeAction::ReadHostHeader(n) => BridgeActionView::ReadHostHeader(*n as nat),
            BridgeAction::ReadHostPayload(n) => BridgeActionView::ReadHostPayload(*n as nat),
            BridgeAction::ToViewer { message, video } => BridgeActionView::ToViewer(
                message@,
                *video,
            ),
            BridgeAction::Ping => BridgeActionView::Ping,
            BridgeAction::Pong(d) => BridgeActionView::Pong(d@),
            BridgeAction::ToHost(d) => BridgeActionView::ToHost(d@),
            BridgeAction::Close(c) => BridgeActionView::Close(*c),
            BridgeAction::End => BridgeActionView::End,
        }
    }
}

pub open spec fn bridge_action_views(a: Seq<BridgeAction>) -> Seq<BridgeActionView> {
    a.map_values(|x: BridgeAction| x@)
}

/// The messages a browser gets before anything else: the approval (1), then
/// "stream active" (2), both in the control lane.
pub open spec fn bridge_opening() -> Seq<BridgeActionView> {
    seq![BridgeActionView::ToViewer(seq![1u8], false), BridgeActionView::ToViewer(seq![2u8], false)]
}

/// The end of a session the host ended: the browser is told "Host
/// disconnected" (1011), the host gets the end byte (99).
pub open spec fn host_ended_actions() -> Seq<BridgeActionView> {
    seq![
        BridgeActionView::Close(SessionClose::HostDisconnected),
        BridgeActionView::ToHost(seq![99u8]),
        BridgeActionView::End,
    ]
}

/// The end of a session the browser ended: the host gets the end byte (99)
/// and stays registered, the browser is told "Viewer disconnected" (1000).
pub open spec fn viewer_ended_actions() -> Seq<BridgeActionView> {
    seq![
        BridgeActionView::ToHost(seq![99u8]),
        BridgeActionView::Close(SessionClose::ViewerDisconnected),
        BridgeActionView::End,
    ]
}

pub open spec fn bridge_event_well_formed(ev: BridgeEvent) -> bool {
    match ev {
        BridgeEvent::HostHeader { packet_type, header } => spec_host_frame_rule(packet_type) matches HostFrameRule::Header(n) && header@.len() == n,
        _ => true,
    }
}

/// One step of the bridge.
pub open spec fn spec_bridge_step(s: BridgeState, ev: BridgeEvent) -> (BridgeState, Seq<BridgeActionView>) {
    let done = BridgeState { ended: true, idle_ms: s.idle_ms };
    let none = Seq::<BridgeActionView>::empty();
    if s.ended {
        (s, none)
    } else {
        match ev {
            BridgeEvent::HostType(t) => match spec_host_frame_rule(t) {
                HostFrameRule::Header(n) => (s, seq![BridgeActionView::ReadHostHeader(n as nat)]),
                HostFrameRule::EndSession => (done, host_ended_actions()),
                HostFrameRule::Ignore => (s, none),
            },
            BridgeEvent::HostHeader { packet_type, header } => match spec_host_payload_len(
                packet_type,
                header@,
            ) {
                Some(n) => (s, seq![BridgeActionView::ReadHostPayload(n)]),
                None => (done, host_ended_actions()),
            },
            BridgeEvent::HostPayload { packet_type, header, payload } => (
                s,
                seq![
                    BridgeActionView::ToViewer(
                        seq![packet_type] + header@ + payload@,
                        packet_type == 13 || packet_type == 15,
                    ),
                ],
            ),
            BridgeEvent::HostEnded => (done, host_ended_actions()),
            BridgeEvent::ViewerBinary(d) => (s, seq![BridgeActionView::ToHost(d@)]),
            BridgeEvent::ViewerPing(d) => (s, seq![BridgeActionView::Pong(d@)]),
            BridgeEvent::ViewerEnded => (done, viewer_ended_actions()),
            BridgeEvent::HostWriteFailed => (s, none),
            BridgeEvent::WriterIdle => if s.idle_ms + 20 >= 100 {
                (BridgeState { ended: false, idle_ms: 0 }, seq![BridgeActionView::Ping])
            } else {
                (BridgeState { ended: false, idle_ms: (s.idle_ms + 20) as u32 }, none)
            },
            BridgeEvent::WriterSent => (BridgeState { ended: false, idle_ms: 0 }, none),
        }
    }
}

fn one_byte(b: u8) -> (v: Vec<u8>)
    ensures
        v@ == seq![b],
{
    let mut v: Vec<u8> = Vec::new();
    v.push(b);
    assert(v@ =~= seq![b]);
    v
}

/// The bridge as it starts: the opening messages queued first.
pub fn bridge_start() -> (r: (BridgeState, Vec<BridgeAction>))
    ensures
        !r.0.ended,
        r.0.idle_ms == 0,
        bridge_action_views(r.1@) == bridge_opening(),
{
    let mut opening = session_opening();
    let active = opening.pop().unwrap();
    let approval = opening.pop().unwrap();
    let mut a: Vec<BridgeAction> = Vec::new();
    a.push(BridgeAction::ToViewer { message: approval, video: false });
    a.push(BridgeAction::ToViewer { message: active, video: false });
    assert(bridge_action_views(a@) =~= bridge_opening());
    (BridgeState { ended: false, idle_ms: 0 }, a)
}

fn host_ended(s: &BridgeState) -> (r: (BridgeState, Vec<BridgeAction>))
    ensures
        r.0 == (BridgeState { ended: true, idle_ms: s.idle_ms }),
        bridge_action_views(r.1@) == host_ended_actions(),
{
    let mut a: Vec<BridgeAction> = Vec::new();
    a.push(BridgeAction::Close(session_close(true)));
    a.push(BridgeAction::ToHost(one_byte(99)));
    a.push(BridgeAction::End);
    assert(bridge_action_views(a@) =~= host_ended_actions());
    (BridgeState { ended: true, idle_ms: s.idle_ms }, a)
}

/// One step of the bridge between a host and a browser viewer.
pub fn bridge_step(s: &BridgeState, ev: BridgeEvent) -> (r: (BridgeState, Vec<BridgeAction>))
    requires
        s.idle_ms < 100,
        bridge_event_well_formed(ev),
    ensures
        r.0 == spec_bridge_step(*s, ev).0,
        bridge_action_views(r.1@) == spec_bridge_step(*s, ev).1,
        r.0.idle_ms < 100,
{
    let ghost spec = spec_bridge_step(*s, ev);
    let mut a: Vec<BridgeAction> = Vec::new();
    if s.ended {
        assert(bridge_action_views(a@) =~= spec.1);
        return (*s, a);
    }
    match ev {
        BridgeEvent::HostType(t) => match host_frame_rule(t) {
            HostFrameRule::Header(n) => {
                a.push(BridgeAction::ReadHostHeader(n));
                assert(bridge_action_views(a@) =~= spec.1);
                (*s, a)
            },
            HostFrameRule::EndSession => host_ended(s),
            HostFrameRule::Ignore => {
                assert(bridge_action_views(a@) =~= spec.1);
                (*s, a)
            },
        },
        BridgeEvent::HostHeader { packet_type, header } => match host_payload_len(
            packet_type,
            header.as_slice(),
        ) {
            Some(n) => {
                a.push(BridgeAction::ReadHostPayload(n));
                assert(bridge_action_views(a@) =~= spec.1);
                (*s, a)
            },
            None => host_ended(s),
        },
        BridgeEvent::HostPayload { packet_type, header, payload } => {
            let mut m: Vec<u8> = Vec::new();
            m.push(packet_type);
            let mut i: usize = 0;
            while i < header.len()
                invariant
                    i <= header@.len(),
                    m@ == seq![packet_type] + header@.subrange(0, i as int),
                decreases header@.len() - i,
            {
                m.push(header[i]);
                i = i + 1;
                assert(m@ =~= seq![packet_type] + header@.subrange(0, i as int));
            }
            let mut j: usize = 0;
            while j < payload.len()
                invariant
                    j <= payload@.len(),
                    m@ == seq![packet_type] + header@ + payload@.subrange(0, j as int),
                decreases payload@.len() - j,
            {
                proof {
                    assert(header@.subrange(0, header@.len() as int) =~= header@);
                }
                m.push(payload[j]);
                j = j + 1;
                assert(m@ =~= seq![packet_type] + header@ + payload@.subrange(0, j as int));
            }
            assert(header@.subrange(0, header@.len() as int) =~= header@);
            assert(payload@.subrange(0, payload@.len() as int) =~= payload@);
            let video = is_video_lane(packet_type);
            a.push(BridgeAction::ToViewer { message: m, video });
            assert(bridge_action_views(a@) =~= spec.1);
            (*s, a)
        },
        BridgeEvent::HostEnded => host_ended(s),
        BridgeEvent::ViewerBinary(d) => {
            a.push(BridgeAction::ToHost(d));
            assert(bridge_action_views(a@) =~= spec.1);
            (*s, a)
        },
        BridgeEvent::ViewerPing(d) => {
            a.push(BridgeAction::Pong(d));
            assert(bridge_action_views(a@) =~= spec.1);
            (*s, a)
        },
        BridgeEvent::ViewerEnded => {
            a.push(BridgeAction::ToHost(one_byte(99)));
            a.push(BridgeAction::Close(session_close(false)));
            a.push(BridgeAction::End);
            assert(bridge_action_views(a@) =~= spec.1);
            (BridgeState { ended: true, idle_ms: s.idle_ms }, a)
        },
        BridgeEvent::HostWriteFailed => {
            assert(bridge_action_views(a@) =~= spec.1);
            (*s, a)
        },
        BridgeEvent::WriterIdle => {
            let (ping, idle_ms) = writer_idle_tick(s.idle_ms);
            if ping {
                a.push(BridgeAction::Ping);
            }
            assert(bridge_action_views(a@) =~= spec.1);
            (BridgeState { ended: false, idle_ms }, a)
        },
        BridgeEvent::WriterSent => {
            assert(bridge_action_views(a@) =~= spec.1);
            (BridgeState { ended: false, idle_ms: 0 }, a)
        },
    }
}

/// Before its first step the bridge queues the approval (1) and then
/// "stream active" (2) for the browser, in the control lane, which is
/// written before any video.
pub proof fn lemma_bridge_opens_with_approval_then_active()
    ensures
        bridge_opening().len() == 2,
        bridge_opening()[0] == BridgeActionView::ToViewer(seq![1u8], false),
        bridge_opening()[1] == BridgeActionView::ToViewer(seq![2u8], false),
{
}

/// A failed write of the browser's input to the host is not fatal: the
/// session goes on unchanged.
pub proof fn lemma_host_write_failure_not_fatal(s: BridgeState)
    ensures
        spec_bridge_step(s, BridgeEvent::HostWriteFailed).0 == s,
        spec_bridge_step(s, BridgeEvent::HostWriteFailed).1.len() == 0,
{
}

/// The close code says who ended the session: a host that ends it (its end
/// byte, a read error or a refused packet) gives "Host disconnected" (1011);
/// a browser that ends it gives "Viewer disconnected" (1000), and the host
/// gets the end byte either way. After the end nothing more happens.
pub proof fn lemma_close_follows_who_ended(s: BridgeState, ev: BridgeEvent)
    ensures
        !s.ended && (ev is HostEnded || (ev matches BridgeEvent::HostType(t) && t == 99)) ==> spec_bridge_step(s, ev).1 == host_ended_actions() && spec_bridge_step(s, ev).0.ended,
        !s.ended && ev is ViewerEnded ==> spec_bridge_step(s, ev).1 == viewer_ended_actions() && spec_bridge_step(s, ev).0.ended,
        s.ended ==> spec_bridge_step(s, ev).1.len() == 0 && spec_bridge_step(s, ev).0 == s,
{
}

/// During a live session the browser's binary messages reach the host byte
/// for byte and its pings are answered with the same payload; neither changes
/// the session.
pub proof fn lemma_browser_messages_reach_host(s: BridgeState, d: Vec<u8>)
    requires
        !s.ended,
    ensures
        spec_bridge_step(s, BridgeEvent::ViewerBinary(d)) == (s, seq![BridgeActionView::ToHost(d@)]),
        spec_bridge_step(s, BridgeEvent::ViewerPing(d)) == (s, seq![BridgeActionView::Pong(d@)]),
{
}

/// How many header bytes the relay reads after each host packet type: 20
/// for a video frame with timestamp (13), 12 for a legacy frame (15), 10 for
/// audio (17), 8 for a heartbeat (14), 4 for clipboard (12), 2 for chat (16),
/// 18, 16, 48, 8 and 12 for the file and transfer packets (20 to 24); an
/// unknown type is skipped.
pub proof fn lemma_host_header_sizes(s: BridgeState, t: u8)
    requires
        !s.ended,
    ensures
        spec_bridge_step(s, BridgeEvent::HostType(13)).1 == seq![BridgeActionView::ReadHostHeader(20)],
        spec_bridge_step(s, BridgeEvent::HostType(15)).1 == seq![BridgeActionView::ReadHostHeader(12)],
        spec_bridge_step(s, BridgeEvent::HostType(17)).1 == seq![BridgeActionView::ReadHostHeader(10)],
        spec_bridge_step(s, BridgeEvent::HostType(14)).1 == seq![BridgeActionView::ReadHostHeader(8)],
        spec_bridge_step(s, BridgeEvent::HostType(12)).1 == seq![BridgeActionView::ReadHostHeader(4)],
        spec_bridge_step(s, BridgeEvent::HostType(16)).1 == seq![BridgeActionView::ReadHostHeader(2)],
        spec_bridge_step(s, BridgeEvent::HostType(20)).1 == seq![BridgeActionView::ReadHostHeader(18)],
        spec_bridge_step(s, BridgeEvent::HostType(21)).1 == seq![BridgeActionView::ReadHostHeader(16)],
        spec_bridge_step(s, BridgeEvent::HostType(22)).1 == seq![BridgeActionView::ReadHostHeader(48)],
        spec_bridge_step(s, BridgeEvent::HostType(23)).1 == seq![BridgeActionView::ReadHostHeader(8)],
        spec_bridge_step(s, BridgeEvent::HostType(24)).1 == seq![BridgeActionView::ReadHostHeader(12)],
        !(t == 12 || t == 13 || t == 14 || t == 15 || t == 16 || t == 17 || (20 <= t <= 24) || t
            == 99) ==> spec_bridge_step(s, BridgeEvent::HostType(t)) == (s, Seq::<BridgeActionView>::empty()),
{
}

/// The browser is pinged after 100 ms with nothing to send: each idle round
/// of 20 ms adds to the idle time, the fifth pings and starts over, and a
/// message sent starts it over too.
pub proof fn lemma_idle_ping(s: BridgeState)
    requires
        !s.ended,
        s.idle_ms < 100,
    ensures
        s.idle_ms + 20 >= 100 ==> spec_bridge_step(s, BridgeEvent::WriterIdle) == (
            BridgeState { ended: false, idle_ms: 0 },
            seq![BridgeActionView::Ping],
        ),
        s.idle_ms + 20 < 100 ==> spec_bridge_step(s, BridgeEvent::WriterIdle) == (
            BridgeState { ended: false, idle_ms: (s.idle_ms + 20) as u32 },
            Seq::<BridgeActionView>::empty(),
        ),
        spec_bridge_step(s, BridgeEvent::WriterSent) == (
            BridgeState { ended: false, idle_ms: 0 },
            Seq::<BridgeActionView>::empty(),
        ),
{
}

/// A host packet reaches the browser whole, `[type][header][payload]`, in
/// the video lane exactly for video frames (13 and 15).
pub proof fn lemma_host_packet_forwarded_whole(s: BridgeState, packet_type: u8, header: Vec<u8>, payload: Vec<u8>)
    requires
        !s.ended,
    ensures
        spec_bridge_step(s, BridgeEvent::HostPayload { packet_type, header, payload }).1 == seq![
            BridgeActionView::ToViewer(
                seq![packet_type] + header@ + payload@,
                packet_type == 13 || packet_type == 15,
            ),
        ],
{
}

// ---------------------------------------------------------------------------
// A browser viewer's admission
// ---------------------------------------------------------------------------
/// Why the relay closes a browser viewer's socket before any session.
#[derive(Clone, Copy, Debug, PartialEq, Eq, Structural)]
pub enum AdmissionClose {
    /// The identifier is not UTF-8: policy (1008), "Invalid ID".
    InvalidId,
    /// No host registered under the identifier after every lookup: policy
    /// (1008), "Agent not found".
    AgentNotFound,
    /// The host's connection went away before the request reached it: error
    /// (1011), "Agent dropped".
    AgentDropped,
    /// The host refused the viewer: policy (1008), "Rejected".
    Rejected,
}

impl AdmissionClose {
    /// The WebSocket close code.
    pub fn code(&self) -> (c: u16)
        ensures
            c == (match *self {
                AdmissionClose::AgentDropped => 1011u16,
                _ => 1008u16,
            }),
    {
        match self {
            AdmissionClose::AgentDropped => 1011,
            _ => 1008,
        }
    }

    /// The close reason.
    pub fn reason(&self) -> (r: &'static str)
        ensures
            r@ == (match *self {
                AdmissionClose::InvalidId => "Invalid ID"@,
                AdmissionClose::AgentNotFound => "Agent not found"@,
                AdmissionClose::AgentDropped => "Agent dropped"@,
                AdmissionClose::Rejected => "Rejected"@,
            }),
    {
        match self {
            AdmissionClose::InvalidId => "Invalid ID",
            AdmissionClose::AgentNotFound => "Agent not found",
            AdmissionClose::AgentDropped => "Agent dropped",
            AdmissionClose::Rejected => "Rejected",
        }
    }
}

/// Where the viewer's request to its host stands.
#[derive(Clone, Copy, Debug, PartialEq, Eq, Structural)]
pub enum HostReply {
    /// Not handed to the host yet.
    NotAsked,
    /// The host's connection was gone when the request was handed over.
    Dropped,
    /// The host answered: approved or not (a host that went away while
    /// deciding counts as not).
    Answered(bool),
}

/// What the relay does next with a browser viewer.
#[derive(Clone, Copy, Debug, PartialEq, Eq, Structural)]
pub enum ViewerAnswer {
    /// Send `[3]` and drop the connection: the first message was no request.
    Refuse,
    /// Close the socket.
    Close(AdmissionClose),
    /// Wait 100 ms and look the host up again.
    LookUpAgain,
    /// Hand the request to the host.
    AskHost,
    /// The host approved: bridge the two.
    Bridge,
}

pub open spec fn spec_ws_viewer_answer(
    rejection: Option<ViewerRejection>,
    host_found: bool,
    attempts: u32,
    reply: HostReply,
) -> ViewerAnswer {
    match rejection {
        Some(ViewerRejection::Malformed) => ViewerAnswer::Refuse,
        Some(ViewerRejection::InvalidId) => ViewerAnswer::Close(AdmissionClose::InvalidId),
        None => if !host_found {
            if attempts < VIEWER_LOOKUP_ATTEMPTS {
                ViewerAnswer::LookUpAgain
            } else {
                ViewerAnswer::Close(AdmissionClose::AgentNotFound)
            }
        } else {
            match reply {
                HostReply::NotAsked => ViewerAnswer::AskHost,
                HostReply::Dropped => ViewerAnswer::Close(AdmissionClose::AgentDropped),
                HostReply::Answered(true) => ViewerAnswer::Bridge,
                HostReply::Answered(false) => ViewerAnswer::Close(AdmissionClose::Rejected),
            }
        },
    }
}

/// The relay's next move with a browser viewer, given how its first message
/// parsed, whether its host was found after `attempts` lookups, and where the
/// request to the host stands.
pub fn ws_viewer_answer(
    req: &Result<ViewerRequest, ViewerRejection>,
    host_found: bool,
    attempts: u32,
    reply: HostReply,
) -> (a: ViewerAnswer)
    ensures
        a == spec_ws_viewer_answer(
            match req {
                Ok(_) => None,
                Err(e) => Some(*e),
            },
            host_found,
            attempts,
            reply,
        ),
{
    match req {
        Err(ViewerRejection::Malformed) => ViewerAnswer::Refuse,
        Err(ViewerRejection::InvalidId) => ViewerAnswer::Close(AdmissionClose::InvalidId),
        Ok(_) => if !host_found {
            if attempts < VIEWER_LOOKUP_ATTEMPTS {
                ViewerAnswer::LookUpAgain
            } else {
                ViewerAnswer::Close(AdmissionClose::AgentNotFound)
            }
        } else {
            match reply {
                HostReply::NotAsked => ViewerAnswer::AskHost,
                HostReply::Dropped => ViewerAnswer::Close(AdmissionClose::AgentDropped),
                HostReply::Answered(true) => ViewerAnswer::Bridge,
                HostReply::Answered(false) => ViewerAnswer::Close(AdmissionClose::Rejected),
            }
        },
    }
}

/// A viewer is bridged to a host only when its request parsed, the host was
/// found and the host approved.
pub proof fn lemma_bridge_only_when_approved(
    rejection: Option<ViewerRejection>,
    host_found: bool,
    attempts: u32,
    reply: HostReply,
)
    ensures
        spec_ws_viewer_answer(rejection, host_found, attempts, reply) == ViewerAnswer::Bridge
            <==> rejection is None && host_found && reply == HostReply::Answered(true),
{
}

// ---------------------------------------------------------------------------
// A host's link to the relay
// ---------------------------------------------------------------------------
/// Where a registered host's connection stands.
#[derive(Clone, Copy, Debug, PartialEq, Eq, Structural)]
pub enum HostPhase {
    /// The registration acknowledgement is being written.
    Acking,
    /// Registered and waiting: heartbeats come in, viewers' requests go out.
    Idle,
    /// A heartbeat's 8 bytes are being read while idle.
    IdleHeartbeat,
    /// A viewer's PIN hash went to the host; its answer is awaited.
    AwaitingAuth,
    /// A heartbeat's 8 bytes are being read while the answer is awaited.
    AuthHeartbeat,
    /// The host is bridged to a viewer.
    Bridging,
    /// The connection is over.
    Closed,
}

#[derive(Clone, Copy, Debug)]
pub struct HostLinkState {
    pub phase: HostPhase,
}

/// What happened on a host's connection.
pub enum HostEvent {
    /// The registration acknowledgement was written.
    AckSent,
    /// A viewer asks for a session with this PIN hash (taken only while idle).
    ViewerRequest { auth_hash: Vec<u8> },
    /// A byte came from the host.
    HostByte(u8),
    /// The 8 bytes of a heartbeat came from the host.
    HostHeartbeat { timestamp: Vec<u8> },
    /// Reading from the host failed.
    HostReadFailed,
    /// Writing to the host failed.
    HostWriteFailed,
    /// The bridged session ended; the host stays registered.
    BridgeEnded,
}

/// What the relay does next on a host's connection.
pub enum HostAction {
    /// Write these bytes to the host.
    ToHost(Vec<u8>),
    /// Read a heartbeat's 8 bytes.
    ReadHeartbeat,
    /// Tell the dashboard's device registry the host is online.
    ReportPresence,
    /// Enter the host in the relay's registry.
    Register,
    /// Take the host out of the registry (if this connection still holds it).
    Release,
    /// Tell the waiting viewer whether the host approved it.
    AnswerViewer(bool),
    /// Bridge the host to the viewer.
    StartBridge,
    /// The connection is over.
    End,
}

pub enum HostActionView {
    ToHost(Seq<u8>),
    ReadHeartbeat,
    ReportPresence,
    Register,
    Release,
    AnswerViewer(bool),
    StartBridge,
    End,
}

impl View for HostAction {
    type V = HostActionView;

    open spec fn view(&self) -> HostActionView {
        match self {
            HostAction::ToHost(d) => HostActionView::ToHost(d@),
            HostAction::ReadHeartbeat => HostActionView::ReadHeartbeat,
            HostAction::ReportPresence => HostActionView::ReportPresence,
            HostAction::Register => HostActionView::Register,
            HostAction::Release => HostActionView::Release,
            HostAction::AnswerViewer(b) => HostActionView::AnswerViewer(*b),
            HostAction::StartBridge => HostActionView::StartBridge,
            HostAction::End => HostActionView::End,
        }
    }
}

pub open spec fn host_action_views(a: Seq<HostAction>) -> Seq<HostActionView> {
    a.map_values(|x: HostAction| x@)
}

pub open spec fn host_event_well_formed(ev: HostEvent) -> bool {
    match ev {
        HostEvent::ViewerRequest { auth_hash } => auth_hash@.len() == 32,
        HostEvent::HostHeartbeat { timestamp } => timestamp@.len() == 8,
        _ => true,
    }
}

pub open spec fn in_phase(p: HostPhase) -> HostLinkState {
    HostLinkState { phase: p }
}

/// One step of a host's link.
pub open spec fn spec_host_step(s: HostLinkState, ev: HostEvent) -> (HostLinkState, Seq<HostActionView>) {
    let none = Seq::<HostActionView>::empty();
    let refuse = (in_phase(HostPhase::Idle), seq![HostActionView::AnswerViewer(false)]);
    match s.phase {
        HostPhase::Acking => match ev {
            HostEvent::AckSent => (
                in_phase(HostPhase::Idle),
                seq![HostActionView::ReportPresence, HostActionView::Register],
            ),
            HostEvent::HostWriteFailed => (in_phase(HostPhase::Closed), seq![HostActionView::End]),
            _ => (s, none),
        },
        HostPhase::Idle => match ev {
            HostEvent::ViewerRequest { auth_hash } => (
                in_phase(HostPhase::AwaitingAuth),
                seq![HostActionView::ToHost(seq![3u8] + auth_hash@)],
            ),
            HostEvent::HostByte(b) => if b == 14 {
                (in_phase(HostPhase::IdleHeartbeat), seq![HostActionView::ReadHeartbeat])
            } else {
                (s, none)
            },
            HostEvent::HostReadFailed => (
                in_phase(HostPhase::Closed),
                seq![HostActionView::Release, HostActionView::End],
            ),
            _ => (s, none),
        },
        HostPhase::IdleHeartbeat => match ev {
            HostEvent::HostHeartbeat { timestamp } => (
                in_phase(HostPhase::Idle),
                seq![HostActionView::ToHost(seq![14u8] + timestamp@), HostActionView::ReportPresence],
            ),
            HostEvent::HostReadFailed => (in_phase(HostPhase::Idle), none),
            _ => (s, none),
        },
        HostPhase::AwaitingAuth => match ev {
            HostEvent::HostByte(b) => if b == 1 {
                (
                    in_phase(HostPhase::Bridging),
                    seq![HostActionView::AnswerViewer(true), HostActionView::StartBridge],
                )
            } else if b == 14 {
                (in_phase(HostPhase::AuthHeartbeat), seq![HostActionView::ReadHeartbeat])
            } else {
                refuse
            },
            HostEvent::HostReadFailed => refuse,
            HostEvent::HostWriteFailed => refuse,
            _ => (s, none),
        },
        HostPhase::AuthHeartbeat => match ev {
            HostEvent::HostHeartbeat { timestamp } => (
                in_phase(HostPhase::AwaitingAuth),
                seq![HostActionView::ToHost(seq![14u8] + timestamp@)],
            ),
            HostEvent::HostReadFailed => refuse,
            _ => (s, none),
        },
        HostPhase::Bridging => match ev {
            HostEvent::BridgeEnded => (in_phase(HostPhase::Idle), none),
            _ => (s, none),
        },
        HostPhase::Closed => (s, none),
    }
}

/// A registered host's link as it starts: the acknowledgement (1) goes out.
pub fn host_link_start() -> (r: (HostLinkState, Vec<HostAction>))
    ensures
        r.0 == in_phase(HostPhase::Acking),
        host_action_views(r.1@) == seq![HostActionView::ToHost(seq![1u8])],
{
    let mut a: Vec<HostAction> = Vec::new();
    a.push(HostAction::ToHost(one_byte(1)));
    assert(host_action_views(a@) =~= seq![HostActionView::ToHost(seq![1u8])]);
    (HostLinkState { phase: HostPhase::Acking }, a)
}

fn prefixed(b: u8, rest: &Vec<u8>) -> (v: Vec<u8>)
    ensures
        v@ == seq![b] + rest@,
{
    let mut v: Vec<u8> = Vec::new();
    v.push(b);
    let mut i: usize = 0;
    while i < rest.len()
        invariant
            i <= rest@.len(),
            v@ == seq![b] + rest@.subrange(0, i as int),
        decreases rest@.len() - i,
    {
        v.push(rest[i]);
        i = i + 1;
        assert(v@ =~= seq![b] + rest@.subrange(0, i as int));
    }
    assert(rest@.subrange(0, rest@.len() as int) =~= rest@);
    v
}

/// One step of a registered host's link to the relay.
pub fn host_step(s: &HostLinkState, ev: HostEvent) -> (r: (HostLinkState, Vec<HostAction>))
    requires
        host_event_well_formed(ev),
    ensures
        r.0 == spec_host_step(*s, ev).0,
        host_action_views(r.1@) == spec_host_step(*s, ev).1,
{
    let ghost spec = spec_host_step(*s, ev);
    let mut a: Vec<HostAction> = Vec::new();
    let next: HostLinkState = match s.phase {
        HostPhase::Acking => match ev {
            HostEvent::AckSent => {
                a.push(HostAction::ReportPresence);
                a.push(HostAction::Register);
                HostLinkState { phase: HostPhase::Idle }
            },
            HostEvent::HostWriteFailed => {
                a.push(HostAction::End);
                HostLinkState { phase: HostPhase::Closed }
            },
            _ => *s,
        },
        HostPhase::Idle => match ev {
            HostEvent::ViewerRequest { auth_hash } => {
                a.push(HostAction::ToHost(prefixed(3, &auth_hash)));
                HostLinkState { phase: HostPhase::AwaitingAuth }
            },
            HostEvent::HostByte(b) => if b == 14 {
                a.push(HostAction::ReadHeartbeat);
                HostLinkState { phase: HostPhase::IdleHeartbeat }
            } else {
                *s
            },
            HostEvent::HostReadFailed => {
                a.push(HostAction::Release);
                a.push(HostAction::End);
                HostLinkState { phase: HostPhase::Closed }
            },
            _ => *s,
        },
        HostPhase::IdleHeartbeat => match ev {
            HostEvent::HostHeartbeat { timestamp } => {
                a.push(HostAction::ToHost(prefixed(14, &timestamp)));
                a.push(HostAction::ReportPresence);
                HostLinkState { phase: HostPhase::Idle }
            },
            HostEvent::HostReadFailed => HostLinkState { phase: HostPhase::Idle },
            _ => *s,
        },
        HostPhase::AwaitingAuth => match ev {
            HostEvent::HostByte(b) => match classify_auth_reply(b) {
                AuthReply::Approved => {
                    a.push(HostAction::AnswerViewer(true));
                    a.push(HostAction::StartBridge);
                    HostLinkState { phase: HostPhase::Bridging }
                },
                AuthReply::Heartbeat => {
                    a.push(HostAction::ReadHeartbeat);
                    HostLinkState { phase: HostPhase::AuthHeartbeat }
                },
                _ => {
                    a.push(HostAction::AnswerViewer(false));
                    HostLinkState { phase: HostPhase::Idle }
                },
            },
            HostEvent::HostReadFailed | HostEvent::HostWriteFailed => {
                a.push(HostAction::AnswerViewer(false));
                HostLinkState { phase: HostPhase::Idle }
            },
            _ => *s,
        },
        HostPhase::AuthHeartbeat => match ev {
            HostEvent::HostHeartbeat { timestamp } => {
                a.push(HostAction::ToHost(prefixed(14, &timestamp)));
                HostLinkState { phase: HostPhase::AwaitingAuth }
            },
            HostEvent::HostReadFailed => {
                a.push(HostAction::AnswerViewer(false));
                HostLinkState { phase: HostPhase::Idle }
            },
            _ => *s,
        },
        HostPhase::Bridging => match ev {
            HostEvent::BridgeEnded => HostLinkState { phase: HostPhase::Idle },
            _ => *s,
        },
        HostPhase::Closed => *s,
    };
    assert(host_action_views(a@) =~= spec.1);
    (next, a)
}

/// A viewer is approved and bridged only when the host, asked for a
/// session, answers 1; any other answer, or losing the host meanwhile, tells
/// the viewer no and leaves the host registered and idle.
pub proof fn lemma_host_approval(s: HostLinkState, ev: HostEvent)
    requires
        s.phase == HostPhase::AwaitingAuth,
    ensures
        spec_host_step(s, ev).0.phase == HostPhase::Bridging <==> (ev matches HostEvent::HostByte(b) && b == 1),
        (ev matches HostEvent::HostByte(b) && b != 1 && b != 14) ==> spec_host_step(s, ev) == (
            in_phase(HostPhase::Idle),
            seq![HostActionView::AnswerViewer(false)],
        ),
        ev is HostReadFailed || ev is HostWriteFailed ==> spec_host_step(s, ev).1 == seq![HostActionView::AnswerViewer(false)],
{
}

/// A heartbeat that crosses a viewer's request is echoed and the relay keeps
/// waiting for the host's answer; an idle heartbeat is echoed and reported to
/// the dashboard.
pub proof fn lemma_heartbeats_echoed(p: HostPhase, timestamp: Vec<u8>)
    requires
        p == HostPhase::IdleHeartbeat || p == HostPhase::AuthHeartbeat,
    ensures
        spec_host_step(in_phase(p), HostEvent::HostHeartbeat { timestamp }).1[0] == HostActionView::ToHost(seq![14u8] + timestamp@),
        p == HostPhase::AuthHeartbeat ==> spec_host_step(in_phase(p), HostEvent::HostHeartbeat { timestamp }).0.phase == HostPhase::AwaitingAuth,
        p == HostPhase::IdleHeartbeat ==> spec_host_step(in_phase(p), HostEvent::HostHeartbeat { timestamp }).1 == seq![
            HostActionView::ToHost(seq![14u8] + timestamp@),
            HostActionView::ReportPresence,
        ],
{
}

/// A host leaves the registry only when its connection fails while idle;
/// a finished session leaves it registered.
pub proof fn lemma_host_released_only_when_gone(s: HostLinkState, ev: HostEvent)
    ensures
        spec_host_step(s, ev).1.contains(HostActionView::Release) <==> s.phase == HostPhase::Idle && ev is HostReadFailed,
        s.phase == HostPhase::Bridging && ev is BridgeEnded ==> spec_host_step(s, ev).0.phase == HostPhase::Idle,
{
    if spec_host_step(s, ev).1.contains(HostActionView::Release) {
        let i = choose|i: int| 0 <= i < spec_host_step(s, ev).1.len() && spec_host_step(s, ev).1[i] == HostActionView::Release;
    }
    if s.phase == HostPhase::Idle && ev is HostReadFailed {
        assert(spec_host_step(s, ev).1[0] == HostActionView::Release);
    }
}

} // verus!
