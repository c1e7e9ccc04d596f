use deskstream::relay::{parse_ws_viewer_request, SessionClose, ViewerRejection};
use deskstream::relay_session::{
    bridge_start, bridge_step, host_link_start, host_step, ws_viewer_answer, AdmissionClose,
    BridgeAction, BridgeEvent, HostAction, HostEvent, HostPhase, HostReply, ViewerAnswer,
};

fn to_viewer(a: &BridgeAction) -> (Vec<u8>, bool) {
    match a {
        BridgeAction::ToViewer { message, video } => (message.clone(), *video),
        _ => panic!("expected a message for the browser"),
    }
}

#[test]
fn bridge_opens_with_approval_then_active() {
    let (s, acts) = bridge_start();
    assert!(!s.ended);
    assert_eq!(acts.len(), 2);
    assert_eq!(to_viewer(&acts[0]), (vec![1], false));
    assert_eq!(to_viewer(&acts[1]), (vec![2], false));
}

#[test]
fn bridge_reads_and_forwards_host_packets() {
    let (s, _) = bridge_start();
    let (s, acts) = bridge_step(&s, BridgeEvent::HostType(15));
    assert!(matches!(acts[..], [BridgeAction::ReadHostHeader(12)]));
    let header = vec![0, 0, 0, 2, 0, 0, 0, 2, 0, 0, 0, 3];
    let (s, acts) = bridge_step(&s, BridgeEvent::HostHeader { packet_type: 15, header: header.clone() });
    assert!(matches!(acts[..], [BridgeAction::ReadHostPayload(3)]));
    let (s, acts) = bridge_step(
        &s,
        BridgeEvent::HostPayload { packet_type: 15, header: header.clone(), payload: vec![7, 8, 9] },
    );
    let mut whole = vec![15];
    whole.extend_from_slice(&header);
    whole.extend_from_slice(&[7, 8, 9]);
    assert_eq!(to_viewer(&acts[0]), (whole, true));
    let (s, acts) = bridge_step(&s, BridgeEvent::HostType(16));
    assert!(matches!(acts[..], [BridgeAction::ReadHostHeader(2)]));
    let (_, acts) = bridge_step(
        &s,
        BridgeEvent::HostPayload { packet_type: 16, header: vec![0, 1], payload: vec![65] },
    );
    assert_eq!(to_viewer(&acts[0]), (vec![16, 0, 1, 65], false));
    let (s2, acts) = bridge_step(&s, BridgeEvent::HostType(200));
    assert!(acts.is_empty());
    assert!(!s2.ended);
}

#[test]
fn bridge_host_end_closes_with_host_disconnected() {
    let (s, _) = bridge_start();
    let (s1, acts) = bridge_step(&s, BridgeEvent::HostType(99));
    assert!(s1.ended);
    assert_eq!(acts.len(), 3);
    assert!(matches!(acts[0], BridgeAction::Close(SessionClose::HostDisconnected)));
    assert!(matches!(&acts[1], BridgeAction::ToHost(d) if d == &vec![99u8]));
    assert!(matches!(acts[2], BridgeAction::End));
    assert_eq!(SessionClose::HostDisconnected.code(), 1011);
    assert_eq!(SessionClose::HostDisconnected.reason(), "Host disconnected");
    let (_, acts) = bridge_step(&s, BridgeEvent::HostEnded);
    assert!(matches!(acts[0], BridgeAction::Close(SessionClose::HostDisconnected)));
    // A video header announcing an oversized frame ends the session too.
    let (s3, _) = bridge_step(&s, BridgeEvent::HostType(13));
    let huge = vec![0, 0, 7, 128, 0, 0, 4, 56, 0xff, 0xff, 0xff, 0xff, 0, 0, 0, 0, 0, 0, 0, 0];
    let (s4, acts) = bridge_step(&s3, BridgeEvent::HostHeader { packet_type: 13, header: huge });
    assert!(s4.ended);
    assert!(matches!(acts[0], BridgeAction::Close(SessionClose::HostDisconnected)));
    // After the end nothing happens.
    let (_, acts) = bridge_step(&s4, BridgeEvent::ViewerBinary(vec![5]));
    assert!(acts.is_empty());
}

#[test]
fn bridge_viewer_end_closes_with_viewer_disconnected() {
    let (s, _) = bridge_start();
    let (s1, acts) = bridge_step(&s, BridgeEvent::ViewerEnded);
    assert!(s1.ended);
    assert!(matches!(&acts[0], BridgeAction::ToHost(d) if d == &vec![99u8]));
    assert!(matches!(acts[1], BridgeAction::Close(SessionClose::ViewerDisconnected)));
    assert!(matches!(acts[2], BridgeAction::End));
    assert_eq!(SessionClose::ViewerDisconnected.code(), 1000);
}

#[test]
fn bridge_input_write_failure_is_not_fatal() {
    let (s, _) = bridge_start();
    let (s1, acts) = bridge_step(&s, BridgeEvent::ViewerBinary(vec![5, 0, 65, 0, 0, 0, 0, 0, 0]));
    assert!(matches!(&acts[0], BridgeAction::ToHost(d) if d[0] == 5));
    let (s2, acts) = bridge_step(&s1, BridgeEvent::HostWriteFailed);
    assert!(acts.is_empty());
    assert!(!s2.ended);
    let (_, acts) = bridge_step(&s2, BridgeEvent::ViewerPing(vec![1, 2]));
    assert!(matches!(&acts[0], BridgeAction::Pong(d) if d == &vec![1u8, 2]));
}

#[test]
fn bridge_pings_after_a_hundred_idle_ms() {
    let (mut s, _) = bridge_start();
    for _ in 0..4 {
        let (n, acts) = bridge_step(&s, BridgeEvent::WriterIdle);
        assert!(acts.is_empty());
        s = n;
    }
    assert_eq!(s.idle_ms, 80);
    let (n, acts) = bridge_step(&s, BridgeEvent::WriterIdle);
    assert!(matches!(acts[..], [BridgeAction::Ping]));
    assert_eq!(n.idle_ms, 0);
    let (n, _) = bridge_step(&s, BridgeEvent::WriterSent);
    assert_eq!(n.idle_ms, 0);
}

#[test]
fn browser_admission_answers() {
    let good = parse_ws_viewer_request(b"\x02123456789");
    assert!(good.is_ok());
    let bad = parse_ws_viewer_request(&[7u8, 1]);
    assert!(matches!(bad, Err(ViewerRejection::Malformed)));
    let invalid = parse_ws_viewer_request(&[2u8, 0xff, 0xfe]);
    assert!(matches!(invalid, Err(ViewerRejection::InvalidId)));
    assert_eq!(ws_viewer_answer(&bad, false, 0, HostReply::NotAsked), ViewerAnswer::Refuse);
    assert_eq!(
        ws_viewer_answer(&invalid, true, 0, HostReply::NotAsked),
        ViewerAnswer::Close(AdmissionClose::InvalidId)
    );
    assert_eq!(ws_viewer_answer(&good, false, 0, HostReply::NotAsked), ViewerAnswer::LookUpAgain);
    assert_eq!(ws_viewer_answer(&good, false, 19, HostReply::NotAsked), ViewerAnswer::LookUpAgain);
    assert_eq!(
        ws_viewer_answer(&good, false, 20, HostReply::NotAsked),
        ViewerAnswer::Close(AdmissionClose::AgentNotFound)
    );
    assert_eq!(ws_viewer_answer(&good, true, 3, HostReply::NotAsked), ViewerAnswer::AskHost);
    assert_eq!(
        ws_viewer_answer(&good, true, 3, HostReply::Dropped),
        ViewerAnswer::Close(AdmissionClose::AgentDropped)
    );
    assert_eq!(
        ws_viewer_answer(&good, true, 3, HostReply::Answered(false)),
        ViewerAnswer::Close(AdmissionClose::Rejected)
    );
    assert_eq!(ws_viewer_answer(&good, true, 3, HostReply::Answered(true)), ViewerAnswer::Bridge);
}

#[test]
fn admission_close_codes_and_reasons() {
    assert_eq!(AdmissionClose::InvalidId.code(), 1008);
    assert_eq!(AdmissionClose::InvalidId.reason(), "Invalid ID");
    assert_eq!(AdmissionClose::AgentNotFound.code(), 1008);
    assert_eq!(AdmissionClose::AgentNotFound.reason(), "Agent not found");
    assert_eq!(AdmissionClose::AgentDropped.code(), 1011);
    assert_eq!(AdmissionClose::AgentDropped.reason(), "Agent dropped");
    assert_eq!(AdmissionClose::Rejected.code(), 1008);
    assert_eq!(AdmissionClose::Rejected.reason(), "Rejected");
}

#[test]
fn host_link_registers_after_the_ack() {
    let (s, acts) = host_link_start();
    assert_eq!(s.phase, HostPhase::Acking);
    assert!(matches!(&acts[..], [HostAction::ToHost(d)] if d == &vec![1u8]));
    let (s1, acts) = host_step(&s, HostEvent::AckSent);
    assert_eq!(s1.phase, HostPhase::Idle);
    assert!(matches!(acts[..], [HostAction::ReportPresence, HostAction::Register]));
    let (s2, acts) = host_step(&s, HostEvent::HostWriteFailed);
    assert_eq!(s2.phase, HostPhase::Closed);
    assert!(matches!(acts[..], [HostAction::End]));
}

#[test]
fn host_link_heartbeats_and_approval() {
    let (s, _) = host_link_start();
    let (idle, _) = host_step(&s, HostEvent::AckSent);
    let (hb, acts) = host_step(&idle, HostEvent::HostByte(14));
    assert!(matches!(acts[..], [HostAction::ReadHeartbeat]));
    let (back, acts) = host_step(&hb, HostEvent::HostHeartbeat { timestamp: vec![0, 0, 0, 0, 0, 0, 1, 2] });
    assert_eq!(back.phase, HostPhase::Idle);
    assert!(matches!(&acts[0], HostAction::ToHost(d) if d == &vec![14u8, 0, 0, 0, 0, 0, 0, 1, 2]));
    assert!(matches!(acts[1], HostAction::ReportPresence));
    // A viewer's request: the PIN hash goes to the host.
    let (wait, acts) = host_step(&idle, HostEvent::ViewerRequest { auth_hash: vec![9; 32] });
    assert_eq!(wait.phase, HostPhase::AwaitingAuth);
    assert!(matches!(&acts[0], HostAction::ToHost(d) if d.len() == 33 && d[0] == 3 && d[32] == 9));
    // A heartbeat crossing the request is echoed and the wait goes on.
    let (ahb, _) = host_step(&wait, HostEvent::HostByte(14));
    assert_eq!(ahb.phase, HostPhase::AuthHeartbeat);
    let (wait2, acts) = host_step(&ahb, HostEvent::HostHeartbeat { timestamp: vec![1; 8] });
    assert_eq!(wait2.phase, HostPhase::AwaitingAuth);
    assert!(matches!(&acts[..], [HostAction::ToHost(d)] if d[0] == 14));
    let (ok, acts) = host_step(&wait2, HostEvent::HostByte(1));
    assert_eq!(ok.phase, HostPhase::Bridging);
    assert!(matches!(acts[..], [HostAction::AnswerViewer(true), HostAction::StartBridge]));
    let (after, acts) = host_step(&ok, HostEvent::BridgeEnded);
    assert_eq!(after.phase, HostPhase::Idle);
    assert!(acts.is_empty());
    for b in [0u8, 2, 99] {
        let (no, acts) = host_step(&wait, HostEvent::HostByte(b));
        assert_eq!(no.phase, HostPhase::Idle);
        assert!(matches!(acts[..], [HostAction::AnswerViewer(false)]));
    }
    let (no, acts) = host_step(&wait, HostEvent::HostWriteFailed);
    assert_eq!(no.phase, HostPhase::Idle);
    assert!(matches!(acts[..], [HostAction::AnswerViewer(false)]));
}

#[test]
fn host_link_released_only_when_gone() {
    let (s, _) = host_link_start();
    let (idle, _) = host_step(&s, HostEvent::AckSent);
    let (gone, acts) = host_step(&idle, HostEvent::HostReadFailed);
    assert_eq!(gone.phase, HostPhase::Closed);
    assert!(matches!(acts[..], [HostAction::Release, HostAction::End]));
    let (hb, _) = host_step(&idle, HostEvent::HostByte(14));
    let (still, acts) = host_step(&hb, HostEvent::HostReadFailed);
    assert_eq!(still.phase, HostPhase::Idle);
    assert!(acts.is_empty());
    let (again, acts) = host_step(&idle, HostEvent::HostByte(7));
    assert_eq!(again.phase, HostPhase::Idle);
    assert!(acts.is_empty());
}
