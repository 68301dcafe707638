use netman::disconnect::{
    disconnect, has_active_wifi_on_device, ActiveReading, DisconnectAction, DisconnectEvent,
    DisconnectFlow,
};
use netman::error::NmError;

const DEVICE: &str = "/org/freedesktop/NetworkManager/Devices/3";

fn active(path: &str, connection_type: &str, devices: &[&str]) -> ActiveReading {
    ActiveReading {
        path: path.to_string(),
        unreachable: None,
        connection_type: Some(connection_type.to_string()),
        devices: Some(devices.iter().map(|d| d.to_string()).collect()),
    }
}

fn wifi_on_device() -> Vec<ActiveReading> {
    vec![
        active("/ac/1", "802-3-ethernet", &[DEVICE]),
        active("/ac/2", "802-11-wireless", &["/other", DEVICE]),
        active("/ac/3", "802-11-wireless", &[DEVICE]),
    ]
}

fn nothing_on_device() -> Vec<ActiveReading> {
    vec![active("/ac/1", "802-3-ethernet", &[DEVICE]), active("/ac/4", "802-11-wireless", &["/other"])]
}

/// A flow right after the deactivation was accepted.
fn polling_flow() -> DisconnectFlow {
    let (mut flow, first) = disconnect(DEVICE);
    assert_eq!(first, DisconnectAction::ListActive { after_secs: 0 });
    let second = flow.step(DisconnectEvent::Active(Ok(wifi_on_device())));
    assert_eq!(second, DisconnectAction::Deactivate { connection_path: "/ac/2".to_string() });
    let third = flow.step(DisconnectEvent::Deactivated(Ok(())));
    assert_eq!(third, DisconnectAction::ListActive { after_secs: 1 });
    flow
}

#[test]
fn wifi_connection_on_the_device_is_recognised() {
    assert_eq!(has_active_wifi_on_device(&wifi_on_device(), DEVICE), Ok(true));
    assert_eq!(has_active_wifi_on_device(&nothing_on_device(), DEVICE), Ok(false));
    assert_eq!(has_active_wifi_on_device(&Vec::new(), DEVICE), Ok(false));
}

#[test]
fn unreadable_properties_count_as_not_there() {
    let no_type = ActiveReading {
        path: "/ac/1".to_string(),
        unreachable: None,
        connection_type: None,
        devices: Some(vec![DEVICE.to_string()]),
    };
    let no_devices = ActiveReading {
        path: "/ac/2".to_string(),
        unreachable: None,
        connection_type: Some("802-11-wireless".to_string()),
        devices: None,
    };
    assert_eq!(has_active_wifi_on_device(&vec![no_type, no_devices], DEVICE), Ok(false));
}

#[test]
fn first_wifi_connection_on_the_device_is_deactivated() {
    let (mut flow, first) = disconnect(DEVICE);
    assert_eq!(first, DisconnectAction::ListActive { after_secs: 0 });
    let action = flow.step(DisconnectEvent::Active(Ok(wifi_on_device())));
    assert_eq!(action, DisconnectAction::Deactivate { connection_path: "/ac/2".to_string() });
    assert!(!flow.is_done());
}

#[test]
fn no_wifi_connection_on_the_device_is_an_error() {
    let (mut flow, _) = disconnect(DEVICE);
    let action = flow.step(DisconnectEvent::Active(Ok(nothing_on_device())));
    assert_eq!(action, DisconnectAction::Finish(Err(NmError::NoActiveConnection)));
    assert!(flow.is_done());
}

#[test]
fn failed_listing_ends_the_flow() {
    let (mut flow, _) = disconnect(DEVICE);
    let action = flow.step(DisconnectEvent::Active(Err("no bus".to_string())));
    assert_eq!(
        action,
        DisconnectAction::Finish(Err(NmError::ServiceUnavailable("no bus".to_string())))
    );
    assert!(flow.is_done());
}

#[test]
fn refused_deactivation_ends_the_flow() {
    let (mut flow, _) = disconnect(DEVICE);
    flow.step(DisconnectEvent::Active(Ok(wifi_on_device())));
    let action = flow.step(DisconnectEvent::Deactivated(Err("Failed to disconnect: no".to_string())));
    assert_eq!(
        action,
        DisconnectAction::Finish(Err(NmError::ServiceUnavailable(
            "Failed to disconnect: no".to_string()
        )))
    );
}

#[test]
fn disconnect_succeeds_when_the_connection_is_gone() {
    let mut flow = polling_flow();
    let action = flow.step(DisconnectEvent::Active(Ok(nothing_on_device())));
    assert_eq!(action, DisconnectAction::Finish(Ok(())));
    assert!(flow.is_done());
}

#[test]
fn disconnect_polls_until_the_connection_is_gone() {
    let mut flow = polling_flow();
    for _ in 0..4 {
        let action = flow.step(DisconnectEvent::Active(Ok(wifi_on_device())));
        assert_eq!(action, DisconnectAction::ListActive { after_secs: 1 });
    }
    let action = flow.step(DisconnectEvent::Active(Ok(Vec::new())));
    assert_eq!(action, DisconnectAction::Finish(Ok(())));
}

#[test]
fn disconnect_times_out_after_ten_polls() {
    let mut flow = polling_flow();
    for _ in 0..9 {
        let action = flow.step(DisconnectEvent::Active(Ok(wifi_on_device())));
        assert_eq!(action, DisconnectAction::ListActive { after_secs: 1 });
        assert!(!flow.is_done());
    }
    let action = flow.step(DisconnectEvent::Active(Ok(wifi_on_device())));
    assert_eq!(action, DisconnectAction::Finish(Err(NmError::DisconnectTimedOut)));
    assert!(flow.is_done());
}

#[test]
fn connection_gone_at_the_tenth_poll_is_a_success() {
    let mut flow = polling_flow();
    for _ in 0..9 {
        flow.step(DisconnectEvent::Active(Ok(wifi_on_device())));
    }
    let action = flow.step(DisconnectEvent::Active(Ok(nothing_on_device())));
    assert_eq!(action, DisconnectAction::Finish(Ok(())));
}

#[test]
fn exactly_one_deactivation_is_asked_for() {
    let (mut flow, first) = disconnect(DEVICE);
    let mut asked = vec![first];
    asked.push(flow.step(DisconnectEvent::Active(Ok(wifi_on_device()))));
    asked.push(flow.step(DisconnectEvent::Deactivated(Ok(()))));
    for _ in 0..12 {
        asked.push(flow.step(DisconnectEvent::Active(Ok(wifi_on_device()))));
    }
    let deactivations =
        asked.iter().filter(|a| matches!(a, DisconnectAction::Deactivate { .. })).count();
    let rechecks =
        asked.iter().filter(|a| **a == DisconnectAction::ListActive { after_secs: 1 }).count();
    assert_eq!(deactivations, 1);
    assert_eq!(rechecks, 10);
}

#[test]
fn failed_listing_while_polling_ends_the_flow() {
    let mut flow = polling_flow();
    let action = flow.step(DisconnectEvent::Active(Err("lost".to_string())));
    assert_eq!(
        action,
        DisconnectAction::Finish(Err(NmError::ServiceUnavailable("lost".to_string())))
    );
}

#[test]
fn disconnect_events_out_of_turn_are_ignored() {
    let (mut flow, _) = disconnect(DEVICE);
    assert_eq!(flow.step(DisconnectEvent::Deactivated(Ok(()))), DisconnectAction::Ignored);
    flow.step(DisconnectEvent::Active(Ok(wifi_on_device())));
    assert_eq!(flow.step(DisconnectEvent::Active(Ok(wifi_on_device()))), DisconnectAction::Ignored);
    assert!(!flow.is_done());
}

#[test]
fn finished_disconnect_flow_ignores_everything() {
    let mut flow = polling_flow();
    flow.step(DisconnectEvent::Active(Ok(Vec::new())));
    assert_eq!(flow.step(DisconnectEvent::Active(Ok(Vec::new()))), DisconnectAction::Ignored);
    assert_eq!(flow.step(DisconnectEvent::Deactivated(Ok(()))), DisconnectAction::Ignored);
}

fn unreachable(path: &str, said: &str) -> ActiveReading {
    ActiveReading {
        path: path.to_string(),
        unreachable: Some(said.to_string()),
        connection_type: None,
        devices: None,
    }
}

#[test]
fn unreachable_connection_before_the_match_fails_the_search() {
    let mut connections = vec![unreachable("/ac/0", "gone")];
    connections.extend(wifi_on_device());
    assert_eq!(
        has_active_wifi_on_device(&connections, DEVICE),
        Err(NmError::ServiceUnavailable("gone".to_string()))
    );
    let (mut flow, _) = disconnect(DEVICE);
    let action = flow.step(DisconnectEvent::Active(Ok(connections)));
    assert_eq!(
        action,
        DisconnectAction::Finish(Err(NmError::ServiceUnavailable("gone".to_string())))
    );
    assert!(flow.is_done());
}

#[test]
fn unreachable_connection_after_the_match_does_not_matter() {
    let mut connections = wifi_on_device();
    connections.push(unreachable("/ac/9", "gone"));
    assert_eq!(has_active_wifi_on_device(&connections, DEVICE), Ok(true));
    let (mut flow, _) = disconnect(DEVICE);
    let action = flow.step(DisconnectEvent::Active(Ok(connections)));
    assert_eq!(action, DisconnectAction::Deactivate { connection_path: "/ac/2".to_string() });
}

#[test]
fn unreachable_connection_without_a_match_fails_the_search() {
    let mut connections = nothing_on_device();
    connections.push(unreachable("/ac/9", "gone"));
    assert_eq!(
        has_active_wifi_on_device(&connections, DEVICE),
        Err(NmError::ServiceUnavailable("gone".to_string()))
    );
}

#[test]
fn unreachable_connection_while_polling_ends_the_flow() {
    let mut flow = polling_flow();
    let action = flow.step(DisconnectEvent::Active(Ok(vec![unreachable("/ac/0", "gone")])));
    assert_eq!(
        action,
        DisconnectAction::Finish(Err(NmError::ServiceUnavailable("gone".to_string())))
    );
}

#[test]
fn reading_marked_unreachable_is_no_wifi_connection() {
    let mut odd = active("/ac/2", "802-11-wireless", &[DEVICE]);
    odd.unreachable = Some("gone".to_string());
    assert_eq!(
        has_active_wifi_on_device(&vec![odd], DEVICE),
        Err(NmError::ServiceUnavailable("gone".to_string()))
    );
}
