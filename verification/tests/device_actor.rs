use healslut::actor::{Action, Actor, Connection, DeviceEvent};
use healslut::config::{Channel, Target, TargetSpec};
use healslut::plug::Capture;

/// A frame of uniform BGRA pixels.
fn uniform_frame(width: usize, height: usize, b: u8, g: u8, r: u8) -> Capture {
    let mut bytes = Vec::new();
    for _ in 0..width * height {
        bytes.push(b);
        bytes.push(g);
        bytes.push(r);
        bytes.push(255);
    }
    Capture { width, height, rowstride: 4 * width, bytes }
}

fn red_target(count: usize) -> Target {
    let spec = TargetSpec { x: 2, y: 2, size: 2, channel: Channel::Red, threshold: 128, count };
    let mask = uniform_frame(4, 4, 0, 0, 255).extract(&spec);
    Target { spec, mask }
}

#[test]
fn capture_drives_the_active_signal() {
    let mut actor = Actor::new(None);
    let actions = actor.on_set_target(red_target(1));
    assert_eq!(actions, vec![Action::SaveTarget]);

    // Matches the calibration frame exactly: distance 0 < 1.
    let near = uniform_frame(4, 4, 0, 0, 255);
    assert_eq!(actor.on_capture(&near), Ok(()));
    assert!(actor.active);

    // All black: every bit differs, distance 9 >= 1.
    let far = uniform_frame(4, 4, 0, 0, 0);
    assert_eq!(actor.on_capture(&far), Ok(()));
    assert!(!actor.active);
}

#[test]
fn capture_without_target_keeps_the_signal_off() {
    let mut actor = Actor::new(None);
    let frame = uniform_frame(4, 4, 0, 0, 255);
    assert_eq!(actor.on_capture(&frame), Ok(()));
    assert!(!actor.active);
}

#[test]
fn disconnect_while_idle_changes_nothing() {
    let mut actor = Actor::new(None);
    let actions = actor.on_disconnect();
    assert!(actions.is_empty());
    assert_eq!(actor.conn, Connection::Idle);
    assert!(!actor.active);
}

#[test]
fn disconnect_while_connected_stops_the_device_first() {
    let mut actor = Actor::new(None);
    actor.on_event(DeviceEvent::Added(String::from("wand")));
    let actions = actor.on_disconnect();
    assert_eq!(
        actions,
        vec![
            Action::StopDevice,
            Action::NotifyDisconnected,
            Action::StopScanning,
            Action::NotifyScanStopped,
        ]
    );
    assert_eq!(actor.conn, Connection::Idle);
}

#[test]
fn device_added_while_connected_is_ignored() {
    let mut actor = Actor::new(None);
    let first = actor.on_event(DeviceEvent::Added(String::from("wand")));
    assert_eq!(first, vec![Action::NotifyConnected(String::from("wand"))]);
    assert_eq!(actor.conn, Connection::Connected(String::from("wand")));

    let second = actor.on_event(DeviceEvent::Added(String::from("other")));
    assert!(second.is_empty());
    assert_eq!(actor.conn, Connection::Connected(String::from("wand")));
}

#[test]
fn device_removed_clears_only_the_matching_handle() {
    let mut actor = Actor::new(None);
    actor.on_event(DeviceEvent::Added(String::from("wand")));

    let other = actor.on_event(DeviceEvent::Removed(String::from("other")));
    assert!(other.is_empty());
    assert_eq!(actor.conn, Connection::Connected(String::from("wand")));

    let held = actor.on_event(DeviceEvent::Removed(String::from("wand")));
    assert_eq!(held, vec![Action::NotifyDisconnected]);
    assert_eq!(actor.conn, Connection::Idle);
}

#[test]
fn scan_adopts_a_known_device_without_discovery() {
    let mut actor = Actor::new(None);
    let actions = actor.on_scan(Some(String::from("wand")));
    assert_eq!(actions, vec![Action::NotifyConnected(String::from("wand"))]);
    assert_eq!(actor.conn, Connection::Connected(String::from("wand")));
}

#[test]
fn scan_starts_discovery_when_nothing_is_known() {
    let mut actor = Actor::new(None);
    let actions = actor.on_scan(None);
    assert_eq!(actions, vec![Action::StartScanning, Action::NotifyScanStarted]);
    assert_eq!(actor.conn, Connection::Scanning);
}

#[test]
fn scan_while_connected_is_a_no_op() {
    let mut actor = Actor::new(None);
    actor.on_event(DeviceEvent::Added(String::from("wand")));
    let actions = actor.on_scan(Some(String::from("other")));
    assert!(actions.is_empty());
    assert_eq!(actor.conn, Connection::Connected(String::from("wand")));
}

#[test]
fn stop_scan_treats_already_stopped_as_success() {
    let mut actor = Actor::new(None);
    actor.on_scan(None);
    let first = actor.on_stop_scan();
    assert_eq!(first, vec![Action::StopScanning, Action::NotifyScanStopped]);
    assert_eq!(actor.conn, Connection::Idle);

    let again = actor.on_stop_scan();
    assert_eq!(again, vec![Action::StopScanning, Action::NotifyScanStopped]);
    assert_eq!(actor.conn, Connection::Idle);
}

#[test]
fn scanning_finished_forces_the_scan_state_back() {
    let mut actor = Actor::new(None);
    actor.on_scan(None);
    let actions = actor.on_event(DeviceEvent::ScanningFinished);
    assert_eq!(actions, vec![Action::NotifyScanStopped]);
    assert_eq!(actor.conn, Connection::Idle);
}

#[test]
fn observability_events_change_nothing() {
    let mut actor = Actor::new(None);
    assert!(actor.on_event(DeviceEvent::PingTimeout).is_empty());
    assert!(actor.on_event(DeviceEvent::ServerDisconnect).is_empty());
    assert!(actor.on_event(DeviceEvent::Log).is_empty());
    assert!(actor.on_event(DeviceEvent::Error).is_empty());
    assert_eq!(actor.conn, Connection::Idle);
}
