use netman::device::{
    clone_devices, find_device, is_wifi_device, list_wifi_devices, DeviceReading, WifiDevice,
};
use netman::error::NmError;

fn reading(path: &str, device_type: Option<u32>, interface: Option<&str>) -> DeviceReading {
    DeviceReading {
        path: path.to_string(),
        device_type,
        interface: interface.map(|name| name.to_string()),
    }
}

fn device(path: &str, interface: &str) -> WifiDevice {
    WifiDevice { path: path.to_string(), interface: interface.to_string() }
}

#[test]
fn only_wifi_devices_are_listed() {
    let readings = vec![
        reading("/d/1", Some(1), Some("eth0")),
        reading("/d/2", Some(2), Some("wlan0")),
        reading("/d/3", Some(14), Some("lo")),
        reading("/d/4", Some(2), Some("wlan1")),
    ];
    let devices = list_wifi_devices(&Ok(readings)).unwrap();
    assert_eq!(devices.len(), 2);
    assert_eq!(devices[0].path, "/d/2");
    assert_eq!(devices[0].interface, "wlan0");
    assert_eq!(devices[1].path, "/d/4");
    assert_eq!(devices[1].interface, "wlan1");
}

#[test]
fn no_wifi_device_is_an_error() {
    let readings = vec![reading("/d/1", Some(1), Some("eth0"))];
    assert_eq!(list_wifi_devices(&Ok(readings)).unwrap_err(), NmError::NoWirelessDevice);
}

#[test]
fn no_device_at_all_is_an_error() {
    assert_eq!(list_wifi_devices(&Ok(Vec::new())).unwrap_err(), NmError::NoWirelessDevice);
}

#[test]
fn unreadable_type_is_not_wifi() {
    let readings = vec![reading("/d/1", None, Some("wlan0"))];
    assert_eq!(list_wifi_devices(&Ok(readings)).unwrap_err(), NmError::NoWirelessDevice);
    assert!(!is_wifi_device(None));
    assert!(is_wifi_device(Some(2)));
    assert!(!is_wifi_device(Some(1)));
}

#[test]
fn unreadable_interface_name_is_empty() {
    let readings = vec![reading("/d/7", Some(2), None)];
    let devices = list_wifi_devices(&Ok(readings)).unwrap();
    assert_eq!(devices.len(), 1);
    assert_eq!(devices[0].path, "/d/7");
    assert_eq!(devices[0].interface, "");
}

#[test]
fn devices_are_equal_by_path_alone() {
    assert_eq!(device("/d/1", "wlan0"), device("/d/1", "renamed"));
    assert_ne!(device("/d/1", "wlan0"), device("/d/2", "wlan0"));
}

#[test]
fn device_label_is_the_interface_name() {
    assert_eq!(device("/d/1", "wlan0").label(), "wlan0");
}

#[test]
fn find_device_returns_the_first_match() {
    let devices = vec![device("/d/1", "a"), device("/d/2", "b"), device("/d/2", "c")];
    assert_eq!(find_device(&devices, &"/d/2".to_string()), Some(1));
    assert_eq!(find_device(&devices, &"/d/9".to_string()), None);
}

#[test]
fn cloned_devices_keep_both_fields() {
    let devices = vec![device("/d/1", "a"), device("/d/2", "b")];
    let copy = clone_devices(&devices);
    assert_eq!(copy.len(), 2);
    assert_eq!(copy[1].path, "/d/2");
    assert_eq!(copy[1].interface, "b");
}

#[test]
fn failed_device_listing_is_service_unavailable() {
    let listing = Err("Failed to get devices: no reply".to_string());
    assert_eq!(
        list_wifi_devices(&listing).unwrap_err(),
        NmError::ServiceUnavailable("Failed to get devices: no reply".to_string())
    );
}
