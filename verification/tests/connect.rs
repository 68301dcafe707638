use netman::connect::{connect, ConnectAction, ConnectEvent, ConnectFlow};
use netman::error::{ActivationFailure, NmError};
use netman::network::Network;
use netman::profile::{
    new_profile, ProfileReading, SavedProfile, Section, Setting, SettingValue,
};
use netman::security::Security;

const DEVICE: &str = "/org/freedesktop/NetworkManager/Devices/3";
const AP: &str = "/org/freedesktop/NetworkManager/AccessPoint/17";
const ACTIVE: &str = "/org/freedesktop/NetworkManager/ActiveConnection/5";
const PROFILE: &str = "/org/freedesktop/NetworkManager/Settings/9";

fn network(ssid: &str, security: Security) -> Network {
    Network {
        ssid: ssid.to_string(),
        strength: 60,
        security,
        is_connected: false,
        is_saved: false,
        ap_path: AP.to_string(),
        device_path: DEVICE.to_string(),
    }
}

fn saved(path: &str, ssid: &str) -> SavedProfile {
    SavedProfile {
        path: path.to_string(),
        reading: ProfileReading::Settings(vec![
            Section {
                name: "connection".to_string(),
                entries: vec![Setting {
                    key: "type".to_string(),
                    value: SettingValue::Text("802-11-wireless".to_string()),
                }],
            },
            Section {
                name: "802-11-wireless".to_string(),
                entries: vec![Setting {
                    key: "ssid".to_string(),
                    value: SettingValue::Bytes(ssid.as_bytes().to_vec()),
                }],
            },
        ]),
    }
}

/// A flow for a new profile, at its first poll.
fn polling_flow() -> ConnectFlow {
    let (mut flow, first) = connect(network("home", Security::Wpa2), "secret".to_string());
    assert_eq!(first, ConnectAction::ListProfiles);
    let second = flow.step(ConnectEvent::Profiles(Ok(Vec::new())));
    assert!(matches!(second, ConnectAction::AddAndActivate { .. }));
    let third = flow.step(ConnectEvent::Created(Ok((ACTIVE.to_string(), PROFILE.to_string()))));
    assert_eq!(third, ConnectAction::Poll { active_path: ACTIVE.to_string(), after_secs: 0 });
    flow
}

/// Feeds the readings to a flow at its first poll. Returns how many polls
/// were answered and the action that followed the last of them.
fn poll_through(flow: &mut ConnectFlow, states: &[Option<u32>]) -> (usize, ConnectAction) {
    let mut polls = 0;
    let mut last = ConnectAction::Ignored;
    for state in states {
        last = flow.step(ConnectEvent::State(*state));
        polls += 1;
        if !matches!(last, ConnectAction::Poll { .. }) {
            break;
        }
    }
    (polls, last)
}

#[test]
fn flow_starts_with_the_saved_profiles() {
    let (flow, action) = connect(network("home", Security::Wpa2), "secret".to_string());
    assert_eq!(action, ConnectAction::ListProfiles);
    assert!(!flow.is_done());
}

#[test]
fn malformed_device_path_ends_the_flow_at_once() {
    let mut net = network("home", Security::Wpa2);
    net.device_path = "wlan0".to_string();
    let (flow, action) = connect(net, "secret".to_string());
    assert_eq!(action, ConnectAction::Finish(Err(NmError::InvalidHandle)));
    assert!(flow.is_done());
}

#[test]
fn malformed_access_point_path_ends_the_flow_at_once() {
    let mut net = network("home", Security::Wpa2);
    net.ap_path = "/ap/".to_string();
    let (flow, action) = connect(net, "secret".to_string());
    assert_eq!(action, ConnectAction::Finish(Err(NmError::InvalidHandle)));
    assert!(flow.is_done());
}

#[test]
fn saved_profile_is_activated_directly() {
    let (mut flow, _) = connect(network("home", Security::Wpa2), String::new());
    let profiles = vec![saved("/s/1", "office"), saved("/s/2", "home"), saved("/s/3", "home")];
    let action = flow.step(ConnectEvent::Profiles(Ok(profiles)));
    assert_eq!(
        action,
        ConnectAction::Activate {
            profile_path: "/s/2".to_string(),
            device_path: DEVICE.to_string(),
            ap_path: AP.to_string(),
        }
    );
    let action = flow.step(ConnectEvent::Activated(Ok(ACTIVE.to_string())));
    assert_eq!(action, ConnectAction::Poll { active_path: ACTIVE.to_string(), after_secs: 0 });
    let action = flow.step(ConnectEvent::State(Some(2)));
    assert_eq!(action, ConnectAction::Finish(Ok(())));
    assert!(flow.is_done());
}

#[test]
fn unsaved_network_gets_a_new_profile() {
    let (mut flow, _) = connect(network("home", Security::Wpa3), "secret".to_string());
    let action = flow.step(ConnectEvent::Profiles(Ok(vec![saved("/s/1", "office")])));
    assert_eq!(
        action,
        ConnectAction::AddAndActivate {
            settings: new_profile(&network("home", Security::Wpa3), "secret"),
            device_path: DEVICE.to_string(),
            ap_path: AP.to_string(),
        }
    );
}

#[test]
fn saved_profile_with_a_malformed_path_is_an_invalid_handle() {
    let (mut flow, _) = connect(network("home", Security::Wpa2), String::new());
    let action = flow.step(ConnectEvent::Profiles(Ok(vec![saved("not a path", "home")])));
    assert_eq!(action, ConnectAction::Finish(Err(NmError::InvalidHandle)));
    assert!(flow.is_done());
}

#[test]
fn failed_profile_listing_ends_the_flow() {
    let (mut flow, _) = connect(network("home", Security::Wpa2), String::new());
    let action = flow.step(ConnectEvent::Profiles(Err("Failed to list connections".to_string())));
    assert_eq!(
        action,
        ConnectAction::Finish(Err(NmError::ServiceUnavailable(
            "Failed to list connections".to_string()
        )))
    );
    assert!(flow.is_done());
}

#[test]
fn refused_activation_ends_the_flow_without_deleting_the_profile() {
    let (mut flow, _) = connect(network("home", Security::Wpa2), String::new());
    flow.step(ConnectEvent::Profiles(Ok(vec![saved("/s/2", "home")])));
    let action = flow.step(ConnectEvent::Activated(Err("Failed to connect: busy".to_string())));
    assert_eq!(
        action,
        ConnectAction::Finish(Err(NmError::ServiceUnavailable(
            "Failed to connect: busy".to_string()
        )))
    );
    assert!(flow.is_done());
}

#[test]
fn refused_creation_ends_the_flow() {
    let (mut flow, _) = connect(network("home", Security::Wpa2), "pw".to_string());
    flow.step(ConnectEvent::Profiles(Ok(Vec::new())));
    let action = flow.step(ConnectEvent::Created(Err("Failed to connect: no".to_string())));
    assert_eq!(
        action,
        ConnectAction::Finish(Err(NmError::ServiceUnavailable("Failed to connect: no".to_string())))
    );
}

#[test]
fn activating_activating_activated_succeeds_after_three_polls() {
    let mut flow = polling_flow();
    let (polls, last) = poll_through(&mut flow, &[Some(1), Some(1), Some(2), Some(2)]);
    assert_eq!(polls, 3);
    assert_eq!(last, ConnectAction::Finish(Ok(())));
    assert!(flow.is_done());
}

#[test]
fn later_polls_wait_a_second_first() {
    let mut flow = polling_flow();
    let action = flow.step(ConnectEvent::State(Some(1)));
    assert_eq!(action, ConnectAction::Poll { active_path: ACTIVE.to_string(), after_secs: 1 });
}

#[test]
fn fifteen_times_activating_times_out() {
    let mut flow = polling_flow();
    let (polls, last) = poll_through(&mut flow, &[Some(1); 20]);
    assert_eq!(polls, 15);
    assert_eq!(last, ConnectAction::DeleteProfile { profile_path: PROFILE.to_string() });
    let end = flow.step(ConnectEvent::Deleted);
    assert_eq!(end, ConnectAction::Finish(Err(NmError::ActivationTimedOut)));
    assert!(flow.is_done());
}

#[test]
fn fourteen_times_activating_is_still_polling() {
    let mut flow = polling_flow();
    let (polls, last) = poll_through(&mut flow, &[Some(1); 14]);
    assert_eq!(polls, 14);
    assert_eq!(last, ConnectAction::Poll { active_path: ACTIVE.to_string(), after_secs: 1 });
    assert!(!flow.is_done());
    assert_eq!(flow.step(ConnectEvent::State(Some(2))), ConnectAction::Finish(Ok(())));
}

#[test]
fn activating_then_deactivated_fails_after_two_polls() {
    let mut flow = polling_flow();
    let (polls, last) = poll_through(&mut flow, &[Some(1), Some(4), Some(2)]);
    assert_eq!(polls, 2);
    assert_eq!(last, ConnectAction::DeleteProfile { profile_path: PROFILE.to_string() });
    let end = flow.step(ConnectEvent::Deleted);
    assert_eq!(
        end,
        ConnectAction::Finish(Err(NmError::ActivationFailed(ActivationFailure::Rejected)))
    );
}

#[test]
fn deactivating_fails_at_once() {
    let mut flow = polling_flow();
    let (polls, last) = poll_through(&mut flow, &[Some(3)]);
    assert_eq!(polls, 1);
    assert_eq!(last, ConnectAction::DeleteProfile { profile_path: PROFILE.to_string() });
}

#[test]
fn unreadable_state_fails_at_once() {
    let mut flow = polling_flow();
    let (polls, last) = poll_through(&mut flow, &[Some(1), None]);
    assert_eq!(polls, 2);
    assert_eq!(last, ConnectAction::DeleteProfile { profile_path: PROFILE.to_string() });
    let end = flow.step(ConnectEvent::Deleted);
    assert_eq!(
        end,
        ConnectAction::Finish(Err(NmError::ActivationFailed(ActivationFailure::Vanished)))
    );
}

#[test]
fn unknown_state_fails_at_once() {
    let mut flow = polling_flow();
    let (_, last) = poll_through(&mut flow, &[Some(0)]);
    assert_eq!(last, ConnectAction::DeleteProfile { profile_path: PROFILE.to_string() });
    let end = flow.step(ConnectEvent::Deleted);
    assert_eq!(
        end,
        ConnectAction::Finish(Err(NmError::ActivationFailed(ActivationFailure::Vanished)))
    );
}

#[test]
fn failed_activation_of_a_saved_profile_deletes_that_profile() {
    let (mut flow, _) = connect(network("home", Security::Wpa2), String::new());
    flow.step(ConnectEvent::Profiles(Ok(vec![saved("/s/2", "home")])));
    flow.step(ConnectEvent::Activated(Ok(ACTIVE.to_string())));
    let action = flow.step(ConnectEvent::State(Some(4)));
    assert_eq!(action, ConnectAction::DeleteProfile { profile_path: "/s/2".to_string() });
}

#[test]
fn connect_events_out_of_turn_are_ignored() {
    let (mut flow, _) = connect(network("home", Security::Wpa2), String::new());
    assert_eq!(flow.step(ConnectEvent::State(Some(2))), ConnectAction::Ignored);
    assert_eq!(flow.step(ConnectEvent::Deleted), ConnectAction::Ignored);
    assert!(!flow.is_done());
    // the flow still takes what it was waiting for
    let action = flow.step(ConnectEvent::Profiles(Ok(Vec::new())));
    assert!(matches!(action, ConnectAction::AddAndActivate { .. }));
}

#[test]
fn finished_connect_flow_ignores_everything() {
    let mut flow = polling_flow();
    assert_eq!(flow.step(ConnectEvent::State(Some(2))), ConnectAction::Finish(Ok(())));
    assert_eq!(flow.step(ConnectEvent::State(Some(2))), ConnectAction::Ignored);
    assert_eq!(flow.step(ConnectEvent::Profiles(Ok(Vec::new()))), ConnectAction::Ignored);
    assert!(flow.is_done());
}

#[test]
fn unreachable_profile_before_the_saved_one_ends_the_flow() {
    let (mut flow, _) = connect(network("home", Security::Wpa2), String::new());
    let profiles = vec![
        SavedProfile {
            path: "/s/1".to_string(),
            reading: ProfileReading::Unreachable("Failed to create connection proxy".to_string()),
        },
        saved("/s/2", "home"),
    ];
    let action = flow.step(ConnectEvent::Profiles(Ok(profiles)));
    assert_eq!(
        action,
        ConnectAction::Finish(Err(NmError::ServiceUnavailable(
            "Failed to create connection proxy".to_string()
        )))
    );
    assert!(flow.is_done());
}

#[test]
fn unreachable_profile_after_the_saved_one_does_not_matter() {
    let (mut flow, _) = connect(network("home", Security::Wpa2), String::new());
    let profiles = vec![
        saved("/s/2", "home"),
        SavedProfile {
            path: "/s/3".to_string(),
            reading: ProfileReading::Unreachable("gone".to_string()),
        },
    ];
    let action = flow.step(ConnectEvent::Profiles(Ok(profiles)));
    assert!(matches!(action, ConnectAction::Activate { .. }));
}

#[test]
fn unreadable_profile_is_passed_over() {
    let (mut flow, _) = connect(network("home", Security::Wpa2), String::new());
    let profiles = vec![
        SavedProfile { path: "/s/1".to_string(), reading: ProfileReading::Unreadable },
        saved("/s/2", "home"),
    ];
    let action = flow.step(ConnectEvent::Profiles(Ok(profiles)));
    assert_eq!(
        action,
        ConnectAction::Activate {
            profile_path: "/s/2".to_string(),
            device_path: DEVICE.to_string(),
            ap_path: AP.to_string(),
        }
    );
}
