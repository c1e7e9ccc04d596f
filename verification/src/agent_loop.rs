//! The host agent's session loop on one relay connection, as a state machine:
//! the caller reads the relay and the viewer, keeps the clock, and performs the
//! actions each step returns.
use vstd::prelude::*;
use crate::agent::{classify_relay_message, spec_relay_message, RelayMessage, SESSION_APPROVED};
use crate::protocol::{
    decode_input_event, heartbeat_bytes, heartbeat_packet, spec_decode_input, InputEvent,
};

verus! {

/// Time between heartbeats while the agent waits for a session (5 s).
pub const IDLE_HEARTBEAT_MS: u64 = 5000;

/// Time between round-trip pings during a session (100 ms).
pub const SESSION_PING_MS: u64 = 100;

/// What the agent knows on a registered relay connection.
#[derive(Clone, Copy, Debug)]
pub struct AgentState {
    /// Whether a viewer session is running.
    pub in_session: bool,
    /// When the last heartbeat or ping went out (ms); `None` before the first.
    pub last_heartbeat_ms: Option<u64>,
    /// The monitor the viewer asked to see (index as sent; 0 by default).
    pub selected_monitor: u16,
    /// The last measured round trip to the viewer (ms).
    pub rtt_ms: u64,
}

/// What happened since the last step.
pub enum AgentEvent {
    /// Time passed.
    Tick,
    /// A message of this type came from the relay, with its fixed body read.
    Relay(u8),
    /// A 9-byte input packet came from the viewer: its type and 8 data bytes.
    ViewerInput { packet_type: u8, data: Vec<u8> },
    /// The viewer echoed a ping sent at `sent_ms`.
    ViewerHeartbeat { sent_ms: u64 },
    /// The viewer left (type 99) or its stream closed.
    ViewerLeft,
}

/// What the caller does next, in order.
pub enum AgentAction {
    /// Write these bytes to the relay.
    Send(Vec<u8>),
    /// Start capture, encoding, audio and clipboard sharing for the viewer.
    StartSession,
    /// Stop them.
    StopSession,
    /// Inject this mouse or keyboard event into the desktop.
    Inject(InputEvent),
    /// Capture this monitor from now on.
    SelectMonitor(u16),
}

/// An action as plain values.
pub enum ActionView {
    Send(Seq<u8>),
    StartSession,
    StopSession,
    Inject(InputEvent),
    SelectMonitor(u16),
}

impl View for AgentAction {
    type V = ActionView;

    open spec fn view(&self) -> ActionView {
        match self {
            AgentAction::Send(b) => ActionView::Send(b@),
            AgentAction::StartSession => ActionView::StartSession,
            AgentAction::StopSession => ActionView::StopSession,
            AgentAction::Inject(e) => ActionView::Inject(*e),
            AgentAction::SelectMonitor(i) => ActionView::SelectMonitor(*i),
        }
    }
}

/// The state right after the relay acknowledged the agent's registration.
pub open spec fn spec_connected_state() -> AgentState {
    AgentState { in_session: false, last_heartbeat_ms: None, selected_monitor: 0, rtt_ms: 0 }
}

pub fn connected_state() -> (s: AgentState)
    ensures
        s == spec_connected_state(),
{
    AgentState { in_session: false, last_heartbeat_ms: None, selected_monitor: 0, rtt_ms: 0 }
}

/// The heartbeat period in the agent's current phase.
pub open spec fn heartbeat_period(in_session: bool) -> u64 {
    if in_session {
        SESSION_PING_MS
    } else {
        IDLE_HEARTBEAT_MS
    }
}

/// Whether a heartbeat is due at `now_ms`: none went out yet, or the period
/// has passed since the last.
pub open spec fn heartbeat_due(s: AgentState, now_ms: u64) -> bool {
    match s.last_heartbeat_ms {
        None => true,
        Some(t) => now_ms >= t + heartbeat_period(s.in_session),
    }
}

/// The state and actions of one step.
pub open spec fn spec_agent_step(s: AgentState, ev: AgentEvent, now_ms: u64) -> (
    AgentState,
    Seq<ActionView>,
) {
    let unchanged = (s, Seq::<ActionView>::empty());
    match ev {
        AgentEvent::Tick => if heartbeat_due(s, now_ms) {
            (
                AgentState {
                    in_session: s.in_session,
                    last_heartbeat_ms: Some(now_ms),
                    selected_monitor: s.selected_monitor,
                    rtt_ms: s.rtt_ms,
                },
                seq![ActionView::Send(heartbeat_bytes(now_ms))],
            )
        } else {
            unchanged
        },
        AgentEvent::Relay(t) => if !s.in_session && spec_relay_message(t)
            == RelayMessage::SessionRequest {
            (
                AgentState {
                    in_session: true,
                    last_heartbeat_ms: None,
                    selected_monitor: 0,
                    rtt_ms: s.rtt_ms,
                },
                seq![ActionView::Send(seq![SESSION_APPROVED]), ActionView::StartSession],
            )
        } else {
            unchanged
        },
        AgentEvent::ViewerInput { packet_type, data } => if s.in_session && packet_type <= 10 {
            match spec_decode_input(packet_type, data@) {
                Some(InputEvent::MonitorSwitch { index }) => (
                    AgentState {
                        in_session: s.in_session,
                        last_heartbeat_ms: s.last_heartbeat_ms,
                        selected_monitor: index,
                        rtt_ms: s.rtt_ms,
                    },
                    seq![ActionView::SelectMonitor(index)],
                ),
                Some(e) => (s, seq![ActionView::Inject(e)]),
                None => unchanged,
            }
        } else {
            unchanged
        },
        AgentEvent::ViewerHeartbeat { sent_ms } => if s.in_session && now_ms >= sent_ms {
            (
                AgentState {
                    in_session: s.in_session,
                    last_heartbeat_ms: s.last_heartbeat_ms,
                    selected_monitor: s.selected_monitor,
                    rtt_ms: (now_ms - sent_ms) as u64,
                },
                Seq::<ActionView>::empty(),
            )
        } else {
            unchanged
        },
        AgentEvent::ViewerLeft => if s.in_session {
            (
                AgentState {
                    in_session: false,
                    last_heartbeat_ms: None,
                    selected_monitor: s.selected_monitor,
                    rtt_ms: s.rtt_ms,
                },
                seq![ActionView::StopSession],
            )
        } else {
            unchanged
        },
    }
}

/// Actions as plain values.
pub open spec fn action_views(a: Seq<AgentAction>) -> Seq<ActionView> {
    a.map_values(|x: AgentAction| x@)
}

/// Whether the event is well formed: input packets carry 8 data bytes.
pub open spec fn event_well_formed(ev: AgentEvent) -> bool {
    match ev {
        AgentEvent::ViewerInput { data, .. } => data@.len() == 8,
        _ => true,
    }
}

fn is_due(s: &AgentState, now_ms: u64) -> (b: bool)
    ensures
        b == heartbeat_due(*s, now_ms),
{
    let period: u64 = if s.in_session {
        SESSION_PING_MS
    } else {
        IDLE_HEARTBEAT_MS
    };
    match s.last_heartbeat_ms {
        None => true,
        Some(t) => now_ms >= t && now_ms - t >= period,
    }
}

/// One step of the agent's loop on a registered relay connection.
pub fn agent_step(s: &AgentState, ev: AgentEvent, now_ms: u64) -> (r: (AgentState, Vec<AgentAction>))
    requires
        event_well_formed(ev),
    ensures
        r.0 == spec_agent_step(*s, ev, now_ms).0,
        action_views(r.1@) == spec_agent_step(*s, ev, now_ms).1,
{
    let mut actions: Vec<AgentAction> = Vec::new();
    let ghost spec = spec_agent_step(*s, ev, now_ms);
    match ev {
        AgentEvent::Tick => {
            if is_due(s, now_ms) {
                actions.push(AgentAction::Send(heartbeat_packet(now_ms)));
                let n = AgentState {
                    in_session: s.in_session,
                    last_heartbeat_ms: Some(now_ms),
                    selected_monitor: s.selected_monitor,
                    rtt_ms: s.rtt_ms,
                };
                assert(action_views(actions@) =~= spec.1);
                (n, actions)
            } else {
                assert(action_views(actions@) =~= spec.1);
                (*s, actions)
            }
        },
        AgentEvent::Relay(t) => {
            if !s.in_session && classify_relay_message(t) == RelayMessage::SessionRequest {
                let mut approval: Vec<u8> = Vec::new();
                approval.push(SESSION_APPROVED);
                assert(approval@ =~= seq![SESSION_APPROVED]);
                actions.push(AgentAction::Send(approval));
                actions.push(AgentAction::StartSession);
                let n = AgentState {
                    in_session: true,
                    last_heartbeat_ms: None,
                    selected_monitor: 0,
                    rtt_ms: s.rtt_ms,
                };
                assert(action_views(actions@) =~= spec.1);
                (n, actions)
            } else {
                assert(action_views(actions@) =~= spec.1);
                (*s, actions)
            }
        },
        AgentEvent::ViewerInput { packet_type, data } => {
            if s.in_session && packet_type <= 10 {
                match decode_input_event(packet_type, data.as_slice()) {
                    Some(InputEvent::MonitorSwitch { index }) => {
                        actions.push(AgentAction::SelectMonitor(index));
                        let n = AgentState {
                            in_session: s.in_session,
                            last_heartbeat_ms: s.last_heartbeat_ms,
                            selected_monitor: index,
                            rtt_ms: s.rtt_ms,
                        };
                        assert(action_views(actions@) =~= spec.1);
                        (n, actions)
                    },
                    Some(e) => {
                        actions.push(AgentAction::Inject(e));
                        assert(action_views(actions@) =~= spec.1);
                        (*s, actions)
                    },
                    None => {
                        assert(action_views(actions@) =~= spec.1);
                        (*s, actions)
                    },
                }
            } else {
                assert(action_views(actions@) =~= spec.1);
                (*s, actions)
            }
        },
        AgentEvent::ViewerHeartbeat { sent_ms } => {
            assert(action_views(actions@) =~= spec.1);
            if s.in_session && now_ms >= sent_ms {
                let n = AgentState {
                    in_session: s.in_session,
                    last_heartbeat_ms: s.last_heartbeat_ms,
                    selected_monitor: s.selected_monitor,
                    rtt_ms: now_ms - sent_ms,
                };
                (n, actions)
            } else {
                (*s, actions)
            }
        },
        AgentEvent::ViewerLeft => {
            if s.in_session {
                actions.push(AgentAction::StopSession);
                let n = AgentState {
                    in_session: false,
                    last_heartbeat_ms: None,
                    selected_monitor: s.selected_monitor,
                    rtt_ms: s.rtt_ms,
                };
                assert(action_views(actions@) =~= spec.1);
                (n, actions)
            } else {
                assert(action_views(actions@) =~= spec.1);
                (*s, actions)
            }
        },
    }
}

/// The monitor the capture reads: the selected one when it exists, else the
/// first.
pub fn capture_screen_index(selected: u16, available: usize) -> (i: usize)
    ensures
        i == (if (selected as int) < available { selected as int } else { 0 }),
{
    if (selected as usize) < available {
        selected as usize
    } else {
        0
    }
}

/// A session request to an idle agent is answered with the approval byte
/// before anything else; the streams (video, audio, clipboard) start only
/// after it, and the session begins on the first monitor.
pub proof fn lemma_session_request_approved_first(s: AgentState, t: u8, now_ms: u64)
    requires
        !s.in_session,
        spec_relay_message(t) == RelayMessage::SessionRequest,
    ensures
        spec_agent_step(s, AgentEvent::Relay(t), now_ms).1 == seq![
            ActionView::Send(seq![SESSION_APPROVED]),
            ActionView::StartSession,
        ],
        spec_agent_step(s, AgentEvent::Relay(t), now_ms).0.in_session,
        spec_agent_step(s, AgentEvent::Relay(t), now_ms).0.selected_monitor == 0,
{
}

/// An idle agent sends nothing but heartbeats and its approval byte, and
/// starts no stream unless a viewer asked for a session.
pub proof fn lemma_idle_agent_sends_no_stream(s: AgentState, ev: AgentEvent, now_ms: u64)
    requires
        !s.in_session,
    ensures
        forall|i: int|
            0 <= i < spec_agent_step(s, ev, now_ms).1.len() ==> match #[trigger] spec_agent_step(
                s,
                ev,
                now_ms,
            ).1[i] {
                ActionView::Send(b) => b == heartbeat_bytes(now_ms) || b == seq![SESSION_APPROVED],
                ActionView::StartSession => ev matches AgentEvent::Relay(t) && spec_relay_message(t)
                    == RelayMessage::SessionRequest,
                _ => false,
            },
{
}

/// On each tick the agent sends a heartbeat carrying the time exactly when
/// none went out yet or its period (5 s idle, 100 ms in a session) has
/// passed since the last; otherwise it sends nothing.
pub proof fn lemma_heartbeat_cadence(s: AgentState, now_ms: u64)
    ensures
        heartbeat_due(s, now_ms) ==> spec_agent_step(s, AgentEvent::Tick, now_ms).1 == seq![
            ActionView::Send(heartbeat_bytes(now_ms)),
        ] && spec_agent_step(s, AgentEvent::Tick, now_ms).0.last_heartbeat_ms == Some(now_ms),
        !heartbeat_due(s, now_ms) ==> spec_agent_step(s, AgentEvent::Tick, now_ms).1.len() == 0
            && spec_agent_step(s, AgentEvent::Tick, now_ms).0 == s,
        spec_agent_step(s, AgentEvent::Tick, now_ms).0.in_session == s.in_session,
{
}

/// During a session, an input packet yields exactly the event it encodes: a
/// monitor switch selects that monitor, any other event is injected.
pub proof fn lemma_session_input(s: AgentState, packet_type: u8, data: Vec<u8>, now_ms: u64)
    requires
        s.in_session,
        packet_type <= 10,
        data@.len() == 8,
    ensures
        match spec_decode_input(packet_type, data@) {
            Some(InputEvent::MonitorSwitch { index }) => spec_agent_step(
                s,
                AgentEvent::ViewerInput { packet_type, data },
                now_ms,
            ).1 == seq![ActionView::SelectMonitor(index)] && spec_agent_step(
                s,
                AgentEvent::ViewerInput { packet_type, data },
                now_ms,
            ).0.selected_monitor == index,
            Some(e) => spec_agent_step(
                s,
                AgentEvent::ViewerInput { packet_type, data },
                now_ms,
            ).1 == seq![ActionView::Inject(e)],
            None => false,
        },
{
}

/// When the viewer leaves, the agent stops the streams and is idle again,
/// with a heartbeat due at once.
pub proof fn lemma_viewer_left(s: AgentState, now_ms: u64)
    requires
        s.in_session,
    ensures
        spec_agent_step(s, AgentEvent::ViewerLeft, now_ms).1 == seq![ActionView::StopSession],
        !spec_agent_step(s, AgentEvent::ViewerLeft, now_ms).0.in_session,
        heartbeat_due(spec_agent_step(s, AgentEvent::ViewerLeft, now_ms).0, now_ms),
{
}

} // verus!
