use arena_logic::link::{exit_code, link_status, link_step, Link, LinkAction, LinkEvent, SessionEnd};
use arena_logic::lookup::{connection_status, get_entity_by_id, get_my_player};

#[test]
fn entity_is_found_at_its_first_position() {
    let ids = vec![None, Some(3u32), Some(4), Some(3)];
    assert_eq!(get_entity_by_id(&ids, 3), Some(1));
    assert_eq!(get_entity_by_id(&ids, 4), Some(2));
}

#[test]
fn missing_entity_is_not_found() {
    let ids = vec![None, Some(3u32), Some(4)];
    assert_eq!(get_entity_by_id(&ids, 5), None);
    assert_eq!(get_entity_by_id(&Vec::new(), 0), None);
}

#[test]
fn my_player_is_found_by_identity() {
    let ids = vec![Some("c200".to_string()), None, Some("c2ab".to_string()), Some("c2ab".to_string())];
    assert_eq!(get_my_player(&ids, &"c2ab".to_string()), Some(2));
    assert_eq!(get_my_player(&ids, &"c200".to_string()), Some(0));
    assert_eq!(get_my_player(&ids, &"ffff".to_string()), None);
}

#[test]
fn connection_status_reads_the_reply() {
    assert!(connection_status(Some(true)));
    assert!(!connection_status(Some(false)));
    assert!(!connection_status(None));
}

#[test]
fn connect_then_disconnect_twice() {
    let (s, a) = link_step(Link::Offline, LinkEvent::ConnectSucceeded);
    assert_eq!((s, a), (Link::Online, LinkAction::Answer(true)));
    let (s, a) = link_step(s, LinkEvent::FrameStarted);
    assert_eq!((s, a), (Link::Online, LinkAction::ProcessMessages));
    let (s, a) = link_step(s, LinkEvent::DisconnectRequested);
    assert_eq!((s, a), (Link::Online, LinkAction::CallDisconnect));
    let (s, a) = link_step(s, LinkEvent::DisconnectSucceeded);
    assert_eq!((s, a), (Link::Offline, LinkAction::Answer(true)));
    let (s, a) = link_step(s, LinkEvent::DisconnectRequested);
    assert_eq!((s, a), (Link::Offline, LinkAction::Answer(false)));
    let (s, a) = link_step(s, LinkEvent::FrameStarted);
    assert_eq!((s, a), (Link::Offline, LinkAction::Idle));
}

#[test]
fn failures_keep_the_link() {
    assert_eq!(link_step(Link::Offline, LinkEvent::ConnectFailed), (Link::Offline, LinkAction::Answer(false)));
    assert_eq!(link_step(Link::Online, LinkEvent::ConnectFailed), (Link::Online, LinkAction::Answer(false)));
    assert_eq!(link_step(Link::Online, LinkEvent::DisconnectFailed), (Link::Online, LinkAction::Answer(false)));
}

#[test]
fn exit_codes() {
    assert_eq!(exit_code(SessionEnd::ConnectError), 1);
    assert_eq!(exit_code(SessionEnd::Disconnected { with_error: true }), 1);
    assert_eq!(exit_code(SessionEnd::Disconnected { with_error: false }), 0);
}

#[test]
fn link_status_needs_a_live_connection() {
    assert!(link_status(Link::Online, Some(true)));
    assert!(!link_status(Link::Online, Some(false)));
    assert!(!link_status(Link::Online, None));
    assert!(!link_status(Link::Offline, Some(true)));
    assert!(!link_status(Link::Offline, None));
}

#[test]
fn not_connected_after_failed_connects_or_a_disconnect() {
    let mut s = Link::Offline;
    for e in [LinkEvent::ConnectFailed, LinkEvent::DisconnectRequested, LinkEvent::ConnectFailed] {
        s = link_step(s, e).0;
    }
    assert!(!link_status(s, Some(true)));
    for e in [LinkEvent::ConnectSucceeded, LinkEvent::DisconnectRequested, LinkEvent::DisconnectSucceeded, LinkEvent::ConnectFailed] {
        s = link_step(s, e).0;
    }
    assert!(!link_status(s, Some(true)));
}
