use deskstream::relay::session_opening;
use deskstream::ws_outbox::{WsOutbox, VIDEO_LANE_CAPACITY};

#[test]
fn control_messages_go_before_video() {
    let mut o = WsOutbox::new();
    assert!(o.next().is_none());
    o.push_video(vec![13, 1]);
    o.push_control(vec![12, 7]);
    o.push_control(vec![16, 8]);
    assert_eq!(o.next(), Some(vec![12, 7]));
    assert_eq!(o.next(), Some(vec![16, 8]));
    assert_eq!(o.next(), Some(vec![13, 1]));
    assert!(o.next().is_none());
}

#[test]
fn video_lane_holds_two_frames() {
    assert_eq!(VIDEO_LANE_CAPACITY, 2);
    let mut o = WsOutbox::new();
    assert!(o.has_video_room());
    o.push_video(vec![13, 1]);
    assert!(o.has_video_room());
    o.push_video(vec![15, 2]);
    assert!(!o.has_video_room());
    o.push_control(vec![1]);
    assert!(!o.has_video_room());
    assert_eq!(o.next(), Some(vec![1]));
    assert_eq!(o.next(), Some(vec![13, 1]));
    assert!(o.has_video_room());
    assert_eq!(o.next(), Some(vec![15, 2]));
}

#[test]
fn session_opening_goes_first() {
    let mut o = WsOutbox::new();
    o.push_video(vec![13, 9]);
    for m in session_opening() {
        o.push_control(m);
    }
    assert_eq!(o.next(), Some(vec![1]));
    assert_eq!(o.next(), Some(vec![2]));
    assert_eq!(o.next(), Some(vec![13, 9]));
}
