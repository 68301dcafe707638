use netman::error::NmError;
use netman::network::{clone_networks, find_network, Network};
use netman::profile::{ProfileReading, SavedProfile, Section, Setting, SettingValue};
use netman::scan::{scan_networks, AccessPointReading, ScanReadings};
use netman::security::Security;

const DEVICE: &str = "/org/freedesktop/NetworkManager/Devices/3";

fn ap(path: &str, ssid: &str, strength: u8) -> AccessPointReading {
    AccessPointReading {
        path: path.to_string(),
        ssid: Some(ssid.as_bytes().to_vec()),
        strength: Some(strength),
        flags: Some(0),
        wpa_flags: Some(0),
        rsn_flags: Some(0),
    }
}

fn readings(active: Option<&str>, access_points: Vec<AccessPointReading>) -> ScanReadings {
    ScanReadings {
        active_access_point: active.map(|path| path.to_string()),
        access_points: Ok(access_points),
        saved_profiles: Vec::new(),
    }
}

fn saved(path: &str, ssid: &str) -> SavedProfile {
    SavedProfile {
        path: path.to_string(),
        reading: ProfileReading::Settings(vec![
            Section {
                name: "connection".to_string(),
                entries: vec![Setting {
                    key: "type".to_string(),
                    value: SettingValue::Text("802-11-wireless".to_string()),
                }],
            },
            Section {
                name: "802-11-wireless".to_string(),
                entries: vec![Setting {
                    key: "ssid".to_string(),
                    value: SettingValue::Bytes(ssid.as_bytes().to_vec()),
                }],
            },
        ]),
    }
}

fn ssids(networks: &[Network]) -> Vec<String> {
    networks.iter().map(|n| n.ssid.clone()).collect()
}

#[test]
fn one_access_point_gives_one_network() {
    let list = scan_networks(DEVICE, &readings(None, vec![ap("/ap/1", "home", 70)])).unwrap();
    assert_eq!(
        list,
        vec![Network {
            ssid: "home".to_string(),
            strength: 70,
            security: Security::Open,
            is_connected: false,
            is_saved: false,
            ap_path: "/ap/1".to_string(),
            device_path: DEVICE.to_string(),
        }]
    );
}

#[test]
fn nothing_in_sight_gives_an_empty_list() {
    assert_eq!(scan_networks(DEVICE, &readings(None, Vec::new())), Ok(Vec::new()));
}

#[test]
fn duplicate_ssids_are_collapsed() {
    let aps = vec![
        ap("/ap/1", "home", 40),
        ap("/ap/2", "office", 60),
        ap("/ap/3", "home", 80),
        ap("/ap/4", "home", 10),
        ap("/ap/5", "office", 30),
    ];
    let list = scan_networks(DEVICE, &readings(None, aps)).unwrap();
    assert_eq!(ssids(&list), vec!["home".to_string(), "office".to_string()]);
}

#[test]
fn strongest_duplicate_is_kept() {
    let aps = vec![ap("/ap/1", "home", 40), ap("/ap/2", "home", 80), ap("/ap/3", "home", 10)];
    let list = scan_networks(DEVICE, &readings(None, aps)).unwrap();
    assert_eq!(list.len(), 1);
    assert_eq!(list[0].strength, 80);
    assert_eq!(list[0].ap_path, "/ap/2");
}

#[test]
fn connected_duplicate_beats_a_stronger_one() {
    let aps = vec![ap("/ap/strong", "home", 95), ap("/ap/mine", "home", 20)];
    let list = scan_networks(DEVICE, &readings(Some("/ap/mine"), aps)).unwrap();
    assert_eq!(list.len(), 1);
    assert!(list[0].is_connected);
    assert_eq!(list[0].strength, 20);
    assert_eq!(list[0].ap_path, "/ap/mine");
}

#[test]
fn connected_network_comes_first_then_by_falling_strength() {
    let aps = vec![
        ap("/ap/1", "weak", 10),
        ap("/ap/2", "strong", 90),
        ap("/ap/3", "mine", 30),
        ap("/ap/4", "middle", 50),
    ];
    let list = scan_networks(DEVICE, &readings(Some("/ap/3"), aps)).unwrap();
    assert_eq!(
        ssids(&list),
        vec!["mine".to_string(), "strong".to_string(), "middle".to_string(), "weak".to_string()]
    );
    assert!(list[0].is_connected);
    assert!(!list[1].is_connected);
}

#[test]
fn equally_strong_networks_keep_the_order_of_the_scan() {
    let aps = vec![ap("/ap/1", "b", 50), ap("/ap/2", "a", 50), ap("/ap/3", "c", 50)];
    let list = scan_networks(DEVICE, &readings(None, aps)).unwrap();
    assert_eq!(ssids(&list), vec!["b".to_string(), "a".to_string(), "c".to_string()]);
}

#[test]
fn of_equally_strong_duplicates_the_first_is_kept() {
    let aps = vec![ap("/ap/1", "home", 50), ap("/ap/2", "home", 50)];
    let list = scan_networks(DEVICE, &readings(None, aps)).unwrap();
    assert_eq!(list.len(), 1);
    assert_eq!(list[0].ap_path, "/ap/1");
}

#[test]
fn hidden_access_points_are_left_out() {
    let mut unread = ap("/ap/3", "", 99);
    unread.ssid = None;
    let aps = vec![ap("/ap/1", "", 90), ap("/ap/2", "home", 40), unread];
    let list = scan_networks(DEVICE, &readings(Some("/ap/1"), aps)).unwrap();
    assert_eq!(ssids(&list), vec!["home".to_string()]);
}

#[test]
fn only_hidden_access_points_give_an_empty_list() {
    let aps = vec![ap("/ap/1", "", 90), ap("/ap/2", "", 40)];
    assert_eq!(scan_networks(DEVICE, &readings(None, aps)), Ok(Vec::new()));
}

#[test]
fn unreadable_properties_count_as_zero() {
    let aps = vec![AccessPointReading {
        path: "/ap/1".to_string(),
        ssid: Some(b"home".to_vec()),
        strength: None,
        flags: None,
        wpa_flags: None,
        rsn_flags: None,
    }];
    let list = scan_networks(DEVICE, &readings(None, aps)).unwrap();
    assert_eq!(list.len(), 1);
    assert_eq!(list[0].strength, 0);
    assert_eq!(list[0].security, Security::Open);
}

#[test]
fn security_is_classified_from_the_flags() {
    let mut wpa2 = ap("/ap/1", "home", 50);
    wpa2.flags = Some(0x1);
    wpa2.rsn_flags = Some(0x188);
    let mut enterprise = ap("/ap/2", "work", 40);
    enterprise.wpa_flags = Some(0x200);
    enterprise.rsn_flags = Some(0x400);
    let mut wpa_only = ap("/ap/3", "old", 30);
    wpa_only.rsn_flags = None;
    wpa_only.wpa_flags = Some(0x100);
    let list = scan_networks(DEVICE, &readings(None, vec![wpa2, enterprise, wpa_only])).unwrap();
    assert_eq!(list[0].security, Security::Wpa2);
    assert_eq!(list[1].security, Security::Enterprise);
    assert_eq!(list[2].security, Security::Wpa);
}

#[test]
fn saved_flag_follows_the_profiles() {
    let mut scan = readings(None, vec![ap("/ap/1", "home", 50), ap("/ap/2", "cafe", 40)]);
    scan.saved_profiles = vec![saved("/s/1", "office"), saved("/s/2", "home")];
    let list = scan_networks(DEVICE, &scan).unwrap();
    assert_eq!(list[0].ssid, "home");
    assert!(list[0].is_saved);
    assert_eq!(list[1].ssid, "cafe");
    assert!(!list[1].is_saved);
}

#[test]
fn no_active_access_point_means_nothing_is_connected() {
    let aps = vec![ap("/ap/1", "home", 50), ap("/ap/2", "cafe", 40)];
    let list = scan_networks(DEVICE, &readings(None, aps)).unwrap();
    assert!(list.iter().all(|n| !n.is_connected));
}

#[test]
fn invalid_utf8_in_an_ssid_is_replaced() {
    let mut broken = ap("/ap/1", "", 50);
    broken.ssid = Some(vec![0x66, 0xff, 0x6f]);
    let list = scan_networks(DEVICE, &readings(None, vec![broken])).unwrap();
    assert_eq!(list.len(), 1);
    assert_eq!(list[0].ssid, "f\u{fffd}o");
}

#[test]
fn valid_utf8_in_an_ssid_is_decoded() {
    let list =
        scan_networks(DEVICE, &readings(None, vec![ap("/ap/1", "caf\u{e9} \u{2615}", 50)])).unwrap();
    assert_eq!(list[0].ssid, "caf\u{e9} \u{2615}");
}

#[test]
fn every_network_carries_the_device_path() {
    let aps = vec![ap("/ap/1", "home", 50), ap("/ap/2", "cafe", 40)];
    let list = scan_networks("/dev/7", &readings(None, aps)).unwrap();
    assert!(list.iter().all(|n| n.device_path == "/dev/7"));
}

#[test]
fn malformed_device_path_is_an_invalid_handle() {
    let scan = readings(None, vec![ap("/ap/1", "home", 50)]);
    assert_eq!(scan_networks("wlan0", &scan), Err(NmError::InvalidHandle));
    assert_eq!(scan_networks("/dev//7", &scan), Err(NmError::InvalidHandle));
    assert_eq!(scan_networks("", &scan), Err(NmError::InvalidHandle));
}

#[test]
fn failed_listing_is_a_failed_scan_query() {
    let scan = ScanReadings {
        active_access_point: None,
        access_points: Err("Failed to get access points: denied".to_string()),
        saved_profiles: Vec::new(),
    };
    assert_eq!(
        scan_networks(DEVICE, &scan),
        Err(NmError::ScanQueryFailed("Failed to get access points: denied".to_string()))
    );
}

#[test]
fn malformed_device_path_is_reported_before_a_failed_listing() {
    let scan = ScanReadings {
        active_access_point: None,
        access_points: Err("denied".to_string()),
        saved_profiles: Vec::new(),
    };
    assert_eq!(scan_networks("nope", &scan), Err(NmError::InvalidHandle));
}

#[test]
fn find_network_returns_the_first_match() {
    let aps = vec![ap("/ap/1", "home", 50), ap("/ap/2", "cafe", 40)];
    let list = scan_networks(DEVICE, &readings(None, aps)).unwrap();
    assert_eq!(find_network(&list, &"cafe".to_string()), Some(1));
    assert_eq!(find_network(&list, &"nowhere".to_string()), None);
}

#[test]
fn cloned_networks_are_equal() {
    let aps = vec![ap("/ap/1", "home", 50), ap("/ap/2", "cafe", 40)];
    let list = scan_networks(DEVICE, &readings(Some("/ap/2"), aps)).unwrap();
    assert_eq!(clone_networks(&list), list);
}
