use deskstream::agent_loop::{
    agent_step, capture_screen_index, connected_state, AgentAction, AgentEvent, AgentState,
    IDLE_HEARTBEAT_MS, SESSION_PING_MS,
};
use deskstream::protocol::{InputEvent, MouseButton};

fn sent(a: &AgentAction) -> Vec<u8> {
    match a {
        AgentAction::Send(b) => b.clone(),
        _ => panic!("expected bytes for the relay"),
    }
}

fn in_session() -> AgentState {
    let (s, _) = agent_step(&connected_state(), AgentEvent::Relay(3), 1000);
    s
}

#[test]
fn first_tick_sends_a_heartbeat_with_the_time() {
    let s = connected_state();
    let (s1, acts) = agent_step(&s, AgentEvent::Tick, 0x0102030405060708);
    assert_eq!(acts.len(), 1);
    assert_eq!(sent(&acts[0]), vec![14, 1, 2, 3, 4, 5, 6, 7, 8]);
    assert_eq!(s1.last_heartbeat_ms, Some(0x0102030405060708));
    assert!(!s1.in_session);
}

#[test]
fn idle_heartbeats_are_five_seconds_apart() {
    assert_eq!(IDLE_HEARTBEAT_MS, 5000);
    let (s, _) = agent_step(&connected_state(), AgentEvent::Tick, 10_000);
    let (s2, acts) = agent_step(&s, AgentEvent::Tick, 14_999);
    assert!(acts.is_empty());
    assert_eq!(s2.last_heartbeat_ms, Some(10_000));
    let (s3, acts) = agent_step(&s2, AgentEvent::Tick, 15_000);
    assert_eq!(acts.len(), 1);
    assert_eq!(sent(&acts[0]), vec![14, 0, 0, 0, 0, 0, 0, 0x3a, 0x98]);
    assert_eq!(s3.last_heartbeat_ms, Some(15_000));
    // A clock that went back sends nothing until the period has passed.
    let (_, acts) = agent_step(&s3, AgentEvent::Tick, 100);
    assert!(acts.is_empty());
}

#[test]
fn session_request_is_approved_before_streaming() {
    let s = connected_state();
    let (s1, acts) = agent_step(&s, AgentEvent::Relay(3), 50);
    assert_eq!(acts.len(), 2);
    assert_eq!(sent(&acts[0]), vec![1]);
    assert!(matches!(acts[1], AgentAction::StartSession));
    assert!(s1.in_session);
    assert_eq!(s1.selected_monitor, 0);
    // A second request during the session changes nothing.
    let (s2, acts) = agent_step(&s1, AgentEvent::Relay(3), 60);
    assert!(acts.is_empty());
    assert!(s2.in_session);
}

#[test]
fn idle_relay_messages_other_than_requests_are_ignored() {
    let s = connected_state();
    for t in [14u8, 99, 0, 200] {
        let (s1, acts) = agent_step(&s, AgentEvent::Relay(t), 5);
        assert!(acts.is_empty());
        assert!(!s1.in_session);
    }
}

#[test]
fn session_pings_every_hundred_ms() {
    assert_eq!(SESSION_PING_MS, 100);
    let s = in_session();
    let (s1, acts) = agent_step(&s, AgentEvent::Tick, 2000);
    assert_eq!(acts.len(), 1);
    assert_eq!(sent(&acts[0])[0], 14);
    let (s2, acts) = agent_step(&s1, AgentEvent::Tick, 2099);
    assert!(acts.is_empty());
    let (_, acts) = agent_step(&s2, AgentEvent::Tick, 2100);
    assert_eq!(acts.len(), 1);
}

#[test]
fn session_input_is_injected_as_decoded() {
    let s = in_session();
    let (_, acts) = agent_step(
        &s,
        AgentEvent::ViewerInput { packet_type: 5, data: vec![0, 65, 0, 0, 0, 0, 0, 0] },
        10,
    );
    assert_eq!(acts.len(), 1);
    assert!(matches!(acts[0], AgentAction::Inject(InputEvent::KeyDown { code: 65 })));
    let (_, acts) = agent_step(
        &s,
        AgentEvent::ViewerInput { packet_type: 3, data: vec![0x80, 0, 0x40, 0, 0, 0, 0, 0] },
        10,
    );
    assert!(matches!(
        acts[0],
        AgentAction::Inject(InputEvent::MouseDown { button: MouseButton::Right, x: 0x8000, y: 0x4000 })
    ));
    let (_, acts) = agent_step(
        &s,
        AgentEvent::ViewerInput { packet_type: 9, data: vec![0, 0, 0xff, 0x88, 0, 0, 0, 0] },
        10,
    );
    assert!(matches!(acts[0], AgentAction::Inject(InputEvent::Wheel { scroll: -120 })));
}

#[test]
fn monitor_switch_selects_the_whole_index() {
    let s = in_session();
    let (s1, acts) = agent_step(
        &s,
        AgentEvent::ViewerInput { packet_type: 10, data: vec![0, 1, 0, 0, 0, 0, 0, 0] },
        10,
    );
    assert!(matches!(acts[0], AgentAction::SelectMonitor(1)));
    assert_eq!(s1.selected_monitor, 1);
    assert_eq!(capture_screen_index(s1.selected_monitor, 2), 1);
    assert_eq!(capture_screen_index(s1.selected_monitor, 1), 0);
    assert_eq!(capture_screen_index(300, 3), 0);
    assert_eq!(capture_screen_index(0, 0), 0);
}

#[test]
fn input_while_idle_is_ignored() {
    let s = connected_state();
    let (s1, acts) = agent_step(
        &s,
        AgentEvent::ViewerInput { packet_type: 0, data: vec![0; 8] },
        10,
    );
    assert!(acts.is_empty());
    assert!(!s1.in_session);
}

#[test]
fn viewer_heartbeat_measures_round_trip() {
    let s = in_session();
    let (s1, acts) = agent_step(&s, AgentEvent::ViewerHeartbeat { sent_ms: 900 }, 930);
    assert!(acts.is_empty());
    assert_eq!(s1.rtt_ms, 30);
    let (s2, _) = agent_step(&s1, AgentEvent::ViewerHeartbeat { sent_ms: 1000 }, 930);
    assert_eq!(s2.rtt_ms, 30);
}

#[test]
fn viewer_leaving_stops_the_session() {
    let s = in_session();
    let (s1, acts) = agent_step(&s, AgentEvent::ViewerLeft, 10);
    assert_eq!(acts.len(), 1);
    assert!(matches!(acts[0], AgentAction::StopSession));
    assert!(!s1.in_session);
    let (_, acts) = agent_step(&s1, AgentEvent::Tick, 11);
    assert_eq!(sent(&acts[0])[0], 14);
    let (_, acts) = agent_step(&s1, AgentEvent::ViewerLeft, 12);
    assert!(acts.is_empty());
}
