use netman::network::Network;
use netman::error::NmError;
use netman::profile::{
    find_saved_connection, get_wifi_ssid, new_profile, saved_wifi_ssids, ProfileReading,
    SavedProfile, Section, Setting, SettingValue,
};
use netman::security::Security;

fn section(name: &str, entries: Vec<Setting>) -> Section {
    Section { name: name.to_string(), entries }
}

fn bytes(key: &str, value: &[u8]) -> Setting {
    Setting { key: key.to_string(), value: SettingValue::Bytes(value.to_vec()) }
}

fn settings_of(kind: &str, ssid: &[u8]) -> Vec<Section> {
    vec![
        section("802-11-wireless", vec![text("mode", "infrastructure"), bytes("ssid", ssid)]),
        section("ipv4", vec![text("method", "auto")]),
        section("connection", vec![text("id", "some name"), text("type", kind)]),
    ]
}

fn wifi_settings(ssid: &[u8]) -> Vec<Section> {
    settings_of("802-11-wireless", ssid)
}

fn saved(path: &str, ssid: &str) -> SavedProfile {
    SavedProfile {
        path: path.to_string(),
        reading: ProfileReading::Settings(wifi_settings(ssid.as_bytes())),
    }
}

fn unread(path: &str) -> SavedProfile {
    SavedProfile { path: path.to_string(), reading: ProfileReading::Unreadable }
}

fn unreachable(path: &str, said: &str) -> SavedProfile {
    SavedProfile { path: path.to_string(), reading: ProfileReading::Unreachable(said.to_string()) }
}

fn network(ssid: &str, security: Security) -> Network {
    Network {
        ssid: ssid.to_string(),
        strength: 50,
        security,
        is_connected: false,
        is_saved: false,
        ap_path: "/ap/1".to_string(),
        device_path: "/dev/1".to_string(),
    }
}

fn text(key: &str, value: &str) -> Setting {
    Setting { key: key.to_string(), value: SettingValue::Text(value.to_string()) }
}

#[test]
fn wifi_profile_has_its_ssid() {
    assert_eq!(get_wifi_ssid(&wifi_settings(b"home")), Some("home".to_string()));
}

#[test]
fn other_connection_types_have_no_ssid() {
    assert_eq!(get_wifi_ssid(&settings_of("802-3-ethernet", b"home")), None);
}

#[test]
fn missing_type_has_no_ssid() {
    let settings = vec![
        section("connection", vec![text("id", "x")]),
        section("802-11-wireless", vec![bytes("ssid", b"home")]),
    ];
    assert_eq!(get_wifi_ssid(&settings), None);
    let settings = vec![section("802-11-wireless", vec![bytes("ssid", b"home")])];
    assert_eq!(get_wifi_ssid(&settings), None);
}

#[test]
fn type_that_is_no_text_has_no_ssid() {
    let settings = vec![
        section("connection", vec![bytes("type", b"802-11-wireless")]),
        section("802-11-wireless", vec![bytes("ssid", b"home")]),
    ];
    assert_eq!(get_wifi_ssid(&settings), None);
    let settings = vec![
        section(
            "connection",
            vec![Setting { key: "type".to_string(), value: SettingValue::Other }],
        ),
        section("802-11-wireless", vec![bytes("ssid", b"home")]),
    ];
    assert_eq!(get_wifi_ssid(&settings), None);
}

#[test]
fn missing_ssid_entry_has_no_ssid() {
    let settings = vec![
        section("connection", vec![text("type", "802-11-wireless")]),
        section("802-11-wireless", vec![text("mode", "infrastructure")]),
    ];
    assert_eq!(get_wifi_ssid(&settings), None);
    let settings = vec![section("connection", vec![text("type", "802-11-wireless")])];
    assert_eq!(get_wifi_ssid(&settings), None);
}

#[test]
fn ssid_that_is_no_byte_string_has_no_ssid() {
    let settings = vec![
        section("connection", vec![text("type", "802-11-wireless")]),
        section("802-11-wireless", vec![text("ssid", "home")]),
    ];
    assert_eq!(get_wifi_ssid(&settings), None);
}

#[test]
fn settings_are_found_by_name_wherever_they_stand() {
    let settings = vec![
        section("802-11-wireless", vec![bytes("ssid", b"home")]),
        section("connection", vec![text("type", "802-11-wireless")]),
    ];
    assert_eq!(get_wifi_ssid(&settings), Some("home".to_string()));
    assert_eq!(get_wifi_ssid(&Vec::new()), None);
}

#[test]
fn empty_ssid_is_no_ssid() {
    assert_eq!(get_wifi_ssid(&wifi_settings(b"")), None);
}

#[test]
fn invalid_utf8_in_a_profile_is_replaced() {
    assert_eq!(get_wifi_ssid(&wifi_settings(&[0x61, 0xff])), Some("a\u{fffd}".to_string()));
}

#[test]
fn saved_ssids_hold_each_name_once() {
    let profiles = vec![
        saved("/s/1", "home"),
        unread("/s/2"),
        saved("/s/3", "office"),
        unreachable("/s/6", "gone"),
        saved("/s/4", "home"),
        SavedProfile {
            path: "/s/5".to_string(),
            reading: ProfileReading::Settings(settings_of("vpn", b"work")),
        },
    ];
    assert_eq!(saved_wifi_ssids(&profiles), vec!["home".to_string(), "office".to_string()]);
}

#[test]
fn no_profiles_no_saved_ssids() {
    assert_eq!(saved_wifi_ssids(&Vec::new()), Vec::<String>::new());
}

#[test]
fn first_profile_for_the_ssid_is_found() {
    let profiles =
        vec![saved("/s/1", "office"), unread("/s/2"), saved("/s/3", "home"), saved("/s/4", "home")];
    assert_eq!(
        find_saved_connection(&profiles, &"home".to_string()),
        Ok(Some("/s/3".to_string()))
    );
    assert_eq!(find_saved_connection(&profiles, &"cafe".to_string()), Ok(None));
}

#[test]
fn unreachable_profile_before_the_match_fails_the_search() {
    let profiles = vec![saved("/s/1", "office"), unreachable("/s/2", "gone"), saved("/s/3", "home")];
    assert_eq!(
        find_saved_connection(&profiles, &"home".to_string()),
        Err(NmError::ServiceUnavailable("gone".to_string()))
    );
    assert_eq!(
        find_saved_connection(&profiles, &"cafe".to_string()),
        Err(NmError::ServiceUnavailable("gone".to_string()))
    );
}

#[test]
fn unreachable_profile_after_the_match_does_not_matter() {
    let profiles = vec![saved("/s/1", "office"), unreachable("/s/2", "gone"), saved("/s/3", "home")];
    assert_eq!(
        find_saved_connection(&profiles, &"office".to_string()),
        Ok(Some("/s/1".to_string()))
    );
}

#[test]
fn profile_for_an_open_network_has_no_security_section() {
    let sections = new_profile(&network("cafe", Security::Open), "ignored");
    let expected = vec![
        Section {
            name: "connection".to_string(),
            entries: vec![text("type", "802-11-wireless"), text("id", "cafe")],
        },
        Section {
            name: "802-11-wireless".to_string(),
            entries: vec![
                Setting { key: "ssid".to_string(), value: SettingValue::Bytes(b"cafe".to_vec()) },
                text("mode", "infrastructure"),
            ],
        },
    ];
    assert_eq!(sections, expected);
}

#[test]
fn profile_for_a_wpa2_network_uses_wpa_psk() {
    let sections = new_profile(&network("home", Security::Wpa2), "secret");
    assert_eq!(sections.len(), 3);
    assert_eq!(
        sections[2],
        Section {
            name: "802-11-wireless-security".to_string(),
            entries: vec![text("key-mgmt", "wpa-psk"), text("psk", "secret")],
        }
    );
}

#[test]
fn profile_for_a_wpa3_network_uses_sae() {
    let sections = new_profile(&network("home", Security::Wpa3), "secret");
    assert_eq!(sections.len(), 3);
    assert_eq!(sections[2].entries[0], text("key-mgmt", "sae"));
    assert_eq!(sections[2].entries[1], text("psk", "secret"));
}

#[test]
fn every_protected_category_but_wpa3_uses_wpa_psk() {
    for security in [Security::Wep, Security::Wpa, Security::Wpa2, Security::Enterprise] {
        let sections = new_profile(&network("home", security), "pw");
        assert_eq!(sections[2].entries[0], text("key-mgmt", "wpa-psk"));
    }
}

#[test]
fn profile_carries_the_ssid_as_utf8_bytes() {
    let sections = new_profile(&network("caf\u{e9}", Security::Open), "");
    assert_eq!(sections[0].entries[1], text("id", "caf\u{e9}"));
    assert_eq!(
        sections[1].entries[0],
        Setting {
            key: "ssid".to_string(),
            value: SettingValue::Bytes(vec![0x63, 0x61, 0x66, 0xc3, 0xa9]),
        }
    );
}
