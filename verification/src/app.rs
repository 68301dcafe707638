//! The application's state, the messages it reacts to, and what it asks its
//! driver to do in return.
//!
//! The state machine performs no bus call itself. `App::update` takes one
//! message, moves to the next state and names the one thing the driver has to
//! do next; the driver reports the outcome of that as another message.
//!
//! `transition` says how the state on display moves. `machine_step` adds the
//! one rule that spans states: from the action that asks to join or to leave
//! a network until the message that brings its outcome, no other such action
//! is asked for. A message that would ask for one is dropped; whatever asks
//! for none is taken as at any other time.

use vstd::prelude::*;
use crate::device::{
    clone_devices, device_views, find_device, index_of_path, lemma_index_of_path,
    lemma_index_of_path_bounds, WifiDevice, WifiDeviceView,
};
use crate::error::{NmError, NmErrorView};
use crate::network::{
    clone_networks, find_network, index_of_ssid, lemma_index_of_ssid, network_views, Network,
    NetworkView,
};
use crate::security::Security;
use crate::text::opt_view;

verus! {

/// What the application shows and works on.
#[derive(Debug)]
#[allow(inconsistent_fields)]
pub enum AppState {
    /// No device list has arrived yet. `previous` is the path of the device
    /// that was selected when the list was asked for, if one was.
    Loading { previous: Option<String> },
    /// The network list of the selected device is on display. While
    /// `connecting_ssid` is set, the user is typing the password for it.
    Loaded {
        devices: Vec<WifiDevice>,
        selected_device: usize,
        networks: Vec<Network>,
        connecting_ssid: Option<String>,
        password: String,
        wifi_enabled: bool,
    },
    /// A connection attempt is under way.
    Connecting { devices: Vec<WifiDevice>, selected_device: usize },
    /// A disconnection is under way.
    Disconnecting { devices: Vec<WifiDevice>, selected_device: usize },
    /// Something failed. The devices are kept where they were known, so that
    /// the user can go back without listing them again.
    Error { message: String, devices: Option<Vec<WifiDevice>>, selected_device: usize },
}

/// The view of `AppState`: its content as mathematical values.
#[allow(inconsistent_fields)]
pub enum AppView {
    Loading { previous: Option<Seq<char>> },
    Loaded {
        devices: Seq<WifiDeviceView>,
        selected_device: int,
        networks: Seq<NetworkView>,
        connecting_ssid: Option<Seq<char>>,
        password: Seq<char>,
        wifi_enabled: bool,
    },
    Connecting { devices: Seq<WifiDeviceView>, selected_device: int },
    Disconnecting { devices: Seq<WifiDeviceView>, selected_device: int },
    Error { message: Seq<char>, devices: Option<Seq<WifiDeviceView>>, selected_device: int },
}

impl View for AppState {
    type V = AppView;

    open spec fn view(&self) -> AppView {
        match *self {
            AppState::Loading { previous } => AppView::Loading { previous: opt_view(previous) },
            AppState::Loaded {
                devices,
                selected_device,
                networks,
                connecting_ssid,
                password,
                wifi_enabled,
            } => AppView::Loaded {
                devices: device_views(devices@),
                selected_device: selected_device as int,
                networks: network_views(networks@),
                connecting_ssid: match connecting_ssid {
                    Some(ssid) => Some(ssid@),
                    None => None,
                },
                password: password@,
                wifi_enabled,
            },
            AppState::Connecting { devices, selected_device } => AppView::Connecting {
                devices: device_views(devices@),
                selected_device: selected_device as int,
            },
            AppState::Disconnecting { devices, selected_device } => AppView::Disconnecting {
                devices: device_views(devices@),
                selected_device: selected_device as int,
            },
            AppState::Error { message, devices, selected_device } => AppView::Error {
                message: message@,
                devices: match devices {
                    Some(list) => Some(device_views(list@)),
                    None => None,
                },
                selected_device: selected_device as int,
            },
        }
    }
}

/// Something that happened: a wish of the user, an answer of the service, or
/// a change that the service announced.
#[derive(Debug)]
pub enum Message {
    DevicesLoaded(Result<Vec<WifiDevice>, String>),
    DeviceSelected(WifiDevice),
    /// The outcome of a scan, and the path of the device it was made for.
    NetworksLoaded(Result<Vec<Network>, String>, String),
    NetworkChanged,
    DevicesChanged,
    Refresh,
    Back,
    Disconnect,
    Disconnected(Result<(), String>),
    /// The user picked the network with this SSID.
    Connect(String),
    PasswordChanged(String),
    SubmitConnect,
    CancelConnect,
    Connected(Result<(), String>),
    WifiEnabledChanged,
    WifiEnabledLoaded(Result<bool, String>),
    ToggleWifi(bool),
    WifiToggled(Result<bool, String>),
}

/// The view of `Message`: its content as mathematical values.
pub enum MessageView {
    DevicesLoaded(Result<Seq<WifiDeviceView>, Seq<char>>),
    DeviceSelected(WifiDeviceView),
    NetworksLoaded(Result<Seq<NetworkView>, Seq<char>>, Seq<char>),
    NetworkChanged,
    DevicesChanged,
    Refresh,
    Back,
    Disconnect,
    Disconnected(Result<(), Seq<char>>),
    Connect(Seq<char>),
    PasswordChanged(Seq<char>),
    SubmitConnect,
    CancelConnect,
    Connected(Result<(), Seq<char>>),
    WifiEnabledChanged,
    WifiEnabledLoaded(Result<bool, Seq<char>>),
    ToggleWifi(bool),
    WifiToggled(Result<bool, Seq<char>>),
}

impl View for Message {
    type V = MessageView;

    open spec fn view(&self) -> MessageView {
        match *self {
            Message::DevicesLoaded(Ok(devices)) => MessageView::DevicesLoaded(
                Ok(device_views(devices@)),
            ),
            Message::DevicesLoaded(Err(e)) => MessageView::DevicesLoaded(Err(e@)),
            Message::DeviceSelected(device) => MessageView::DeviceSelected(device@),
            Message::NetworksLoaded(Ok(networks), for_device) => MessageView::NetworksLoaded(
                Ok(network_views(networks@)),
                for_device@,
            ),
            Message::NetworksLoaded(Err(e), for_device) => MessageView::NetworksLoaded(
                Err(e@),
                for_device@,
            ),
            Message::NetworkChanged => MessageView::NetworkChanged,
            Message::DevicesChanged => MessageView::DevicesChanged,
            Message::Refresh => MessageView::Refresh,
            Message::Back => MessageView::Back,
            Message::Disconnect => MessageView::Disconnect,
            Message::Disconnected(Ok(_)) => MessageView::Disconnected(Ok(())),
            Message::Disconnected(Err(e)) => MessageView::Disconnected(Err(e@)),
            Message::Connect(ssid) => MessageView::Connect(ssid@),
            Message::PasswordChanged(text) => MessageView::PasswordChanged(text@),
            Message::SubmitConnect => MessageView::SubmitConnect,
            Message::CancelConnect => MessageView::CancelConnect,
            Message::Connected(Ok(_)) => MessageView::Connected(Ok(())),
            Message::Connected(Err(e)) => MessageView::Connected(Err(e@)),
            Message::WifiEnabledChanged => MessageView::WifiEnabledChanged,
            Message::WifiEnabledLoaded(Ok(enabled)) => MessageView::WifiEnabledLoaded(Ok(enabled)),
            Message::WifiEnabledLoaded(Err(e)) => MessageView::WifiEnabledLoaded(Err(e@)),
            Message::ToggleWifi(enabled) => MessageView::ToggleWifi(enabled),
            Message::WifiToggled(Ok(enabled)) => MessageView::WifiToggled(Ok(enabled)),
            Message::WifiToggled(Err(e)) => MessageView::WifiToggled(Err(e@)),
        }
    }
}

impl Clone for Message {
    fn clone(&self) -> (copy: Self)
        ensures
            copy@ == self@,
    {
        match self {
            Message::DevicesLoaded(Ok(devices)) => Message::DevicesLoaded(
                Ok(clone_devices(devices)),
            ),
            Message::DevicesLoaded(Err(e)) => Message::DevicesLoaded(Err(e.clone())),
            Message::DeviceSelected(device) => Message::DeviceSelected(device.clone()),
            Message::NetworksLoaded(Ok(networks), for_device) => Message::NetworksLoaded(
                Ok(clone_networks(networks)),
                for_device.clone(),
            ),
            Message::NetworksLoaded(Err(e), for_device) => Message::NetworksLoaded(
                Err(e.clone()),
                for_device.clone(),
            ),
            Message::NetworkChanged => Message::NetworkChanged,
            Message::DevicesChanged => Message::DevicesChanged,
            Message::Refresh => Message::Refresh,
            Message::Back => Message::Back,
            Message::Disconnect => Message::Disconnect,
            Message::Disconnected(Ok(_)) => Message::Disconnected(Ok(())),
            Message::Disconnected(Err(e)) => Message::Disconnected(Err(e.clone())),
            Message::Connect(ssid) => Message::Connect(ssid.clone()),
            Message::PasswordChanged(text) => Message::PasswordChanged(text.clone()),
            Message::SubmitConnect => Message::SubmitConnect,
            Message::CancelConnect => Message::CancelConnect,
            Message::Connected(Ok(_)) => Message::Connected(Ok(())),
            Message::Connected(Err(e)) => Message::Connected(Err(e.clone())),
            Message::WifiEnabledChanged => Message::WifiEnabledChanged,
            Message::WifiEnabledLoaded(Ok(enabled)) => Message::WifiEnabledLoaded(Ok(*enabled)),
            Message::WifiEnabledLoaded(Err(e)) => Message::WifiEnabledLoaded(Err(e.clone())),
            Message::ToggleWifi(enabled) => Message::ToggleWifi(*enabled),
            Message::WifiToggled(Ok(enabled)) => Message::WifiToggled(Ok(*enabled)),
            Message::WifiToggled(Err(e)) => Message::WifiToggled(Err(e.clone())),
        }
    }
}

/// The one thing the driver has to do after a message. Whatever comes of it
/// returns as the message named with each variant.
#[derive(Debug, PartialEq, Eq)]
pub enum Action {
    /// Nothing.
    Idle,
    /// List the wireless devices; answer with `DevicesLoaded`.
    ListDevices,
    /// Scan the networks of the device; answer with `NetworksLoaded`.
    Scan { device_path: String },
    /// Scan as above and also ask whether the radio is on; answer with
    /// `NetworksLoaded` and `WifiEnabledLoaded`.
    ScanAndQueryRadio { device_path: String },
    /// Ask whether the radio is on; answer with `WifiEnabledLoaded`.
    QueryRadio,
    /// Switch the radio; answer with `WifiToggled`.
    SetRadio { enabled: bool },
    /// Join the network; answer with `Connected`.
    Connect { network: Network, password: String },
    /// Leave whatever network the device is on; answer with `Disconnected`.
    Disconnect { device_path: String },
    /// Put the cursor into the password field.
    FocusPassword,
    /// Close the application.
    Exit,
}

/// The view of `Action`: its content as mathematical values.
pub enum ActionView {
    Idle,
    ListDevices,
    Scan { device_path: Seq<char> },
    ScanAndQueryRadio { device_path: Seq<char> },
    QueryRadio,
    SetRadio { enabled: bool },
    Connect { network: NetworkView, password: Seq<char> },
    Disconnect { device_path: Seq<char> },
    FocusPassword,
    Exit,
}

impl View for Action {
    type V = ActionView;

    open spec fn view(&self) -> ActionView {
        match *self {
            Action::Idle => ActionView::Idle,
            Action::ListDevices => ActionView::ListDevices,
            Action::Scan { device_path } => ActionView::Scan { device_path: device_path@ },
            Action::ScanAndQueryRadio { device_path } => ActionView::ScanAndQueryRadio {
                device_path: device_path@,
            },
            Action::QueryRadio => ActionView::QueryRadio,
            Action::SetRadio { enabled } => ActionView::SetRadio { enabled },
            Action::Connect { network, password } => ActionView::Connect {
                network: network@,
                password: password@,
            },
            Action::Disconnect { device_path } => ActionView::Disconnect {
                device_path: device_path@,
            },
            Action::FocusPassword => ActionView::FocusPassword,
            Action::Exit => ActionView::Exit,
        }
    }
}

impl AppView {
    /// The device list and the selected index, in every state that has them.
    pub open spec fn device_info(self) -> Option<(Seq<WifiDeviceView>, int)> {
        match self {
            AppView::Loaded { devices, selected_device, .. } => Some((devices, selected_device)),
            AppView::Connecting { devices, selected_device } => Some((devices, selected_device)),
            AppView::Disconnecting { devices, selected_device } => Some(
                (devices, selected_device),
            ),
            AppView::Error { devices: Some(devices), selected_device, .. } => Some(
                (devices, selected_device),
            ),
            _ => None,
        }
    }

    /// A state is well formed when its selected index, if it has a device
    /// list, points into that list, and when it shows no networks while the
    /// radio is off.
    pub open spec fn wf(self) -> bool {
        &&& match self.device_info() {
            Some((devices, selected)) => 0 <= selected < devices.len(),
            None => true,
        }
        &&& self matches AppView::Loaded { networks, wifi_enabled, .. } ==> wifi_enabled
            || networks.len() == 0
    }

    /// Path of the selected device, in every state that has one. While a
    /// device list is awaited, it is the path that was selected before.
    pub open spec fn selected_path(self) -> Option<Seq<char>> {
        match self {
            AppView::Loading { previous } => previous,
            _ => match self.device_info() {
                Some((devices, selected)) => Some(devices[selected].path),
                None => None,
            },
        }
    }

    /// Whether a connection attempt or a disconnection is on display.
    pub open spec fn is_busy(self) -> bool {
        self is Connecting || self is Disconnecting
    }
}

/// The state right after a device list was taken over: nothing scanned yet,
/// no password entry, radio assumed on.
pub open spec fn fresh(devices: Seq<WifiDeviceView>, selected: int) -> AppView {
    AppView::Loaded {
        devices,
        selected_device: selected,
        networks: Seq::empty(),
        connecting_ssid: None,
        password: Seq::empty(),
        wifi_enabled: true,
    }
}

/// The error state reached from `s`: it keeps the devices of `s`, if any.
pub open spec fn error_from(s: AppView, message: Seq<char>) -> AppView {
    match s.device_info() {
        Some((devices, selected)) => AppView::Error {
            message,
            devices: Some(devices),
            selected_device: selected,
        },
        None => AppView::Error { message, devices: None, selected_device: 0 },
    }
}

/// Back to a fresh list for the devices of `s`, with a scan of the selected
/// one; nothing where `s` has no devices.
pub open spec fn rescan(s: AppView) -> (AppView, ActionView) {
    match s.device_info() {
        Some((devices, selected)) => (
            fresh(devices, selected),
            ActionView::Scan { device_path: devices[selected].path },
        ),
        None => (s, ActionView::Idle),
    }
}

/// The index that a new device list gets: that of the device selected before,
/// found by its path, or 0.
pub open spec fn reselect(s: AppView, devices: Seq<WifiDeviceView>) -> int {
    match s.selected_path() {
        Some(path) => match index_of_path(devices, path) {
            Some(i) => i,
            None => 0,
        },
        None => 0,
    }
}

/// A device list arrived. An empty one counts as the failure to find a
/// wireless device.
pub open spec fn devices_loaded(s: AppView, devices: Seq<WifiDeviceView>) -> (AppView, ActionView) {
    if devices.len() == 0 {
        (
            AppView::Error {
                message: NmErrorView::NoWirelessDevice.message(),
                devices: None,
                selected_device: 0,
            },
            ActionView::Idle,
        )
    } else {
        let selected = reselect(s, devices);
        (
            fresh(devices, selected),
            ActionView::ScanAndQueryRadio { device_path: devices[selected].path },
        )
    }
}

/// The user picked a device.
pub open spec fn device_selected(s: AppView, device: WifiDeviceView) -> (AppView, ActionView) {
    match s {
        AppView::Loaded { devices, wifi_enabled, .. } => match index_of_path(devices, device.path) {
            Some(i) => (
                AppView::Loaded {
                    devices,
                    selected_device: i,
                    networks: Seq::empty(),
                    connecting_ssid: None,
                    password: Seq::empty(),
                    wifi_enabled,
                },
                ActionView::Scan { device_path: devices[i].path },
            ),
            None => (s, ActionView::Idle),
        },
        _ => (s, ActionView::Idle),
    }
}

/// A scan came back with a list. It is taken over only if it was made for the
/// device that is selected now, only while the radio is on, and not while a
/// connection attempt or a disconnection is under way.
pub open spec fn networks_loaded(
    s: AppView,
    networks: Seq<NetworkView>,
    for_device: Seq<char>,
) -> AppView {
    match s {
        AppView::Loaded {
            devices,
            selected_device,
            connecting_ssid,
            password,
            wifi_enabled,
            ..
        } => if devices[selected_device].path == for_device && wifi_enabled {
            AppView::Loaded {
                devices,
                selected_device,
                networks,
                connecting_ssid,
                password,
                wifi_enabled,
            }
        } else {
            s
        },
        _ => match s.device_info() {
            Some((devices, selected)) => if devices[selected].path == for_device && !s.is_busy() {
                AppView::Loaded {
                    devices,
                    selected_device: selected,
                    networks,
                    connecting_ssid: None,
                    password: Seq::empty(),
                    wifi_enabled: true,
                }
            } else {
                s
            },
            None => s,
        },
    }
}

/// The service announced a change of the networks around the selected device.
pub open spec fn network_changed(s: AppView) -> (AppView, ActionView) {
    match s {
        AppView::Loaded { devices, selected_device, .. } => (
            s,
            ActionView::Scan { device_path: devices[selected_device].path },
        ),
        _ => (s, ActionView::Idle),
    }
}

/// The user asked to go back from an error.
pub open spec fn back(s: AppView) -> (AppView, ActionView) {
    match s {
        AppView::Error { .. } => rescan(s),
        _ => (s, ActionView::Idle),
    }
}

/// The user asked for a fresh list. Nothing comes of it while a connection
/// attempt or a disconnection is under way.
pub open spec fn refresh(s: AppView) -> (AppView, ActionView) {
    if s.is_busy() {
        (s, ActionView::Idle)
    } else {
        rescan(s)
    }
}

/// The device list is asked for anew. The path of the selected device is kept
/// to select it again.
pub open spec fn reload(s: AppView) -> (AppView, ActionView) {
    (AppView::Loading { previous: s.selected_path() }, ActionView::ListDevices)
}

/// The user asked to disconnect. Nothing comes of it while a connection
/// attempt or a disconnection is under way.
pub open spec fn disconnect_requested(s: AppView) -> (AppView, ActionView) {
    match s.device_info() {
        Some((devices, selected)) => if s.is_busy() {
            (s, ActionView::Idle)
        } else {
            (
                AppView::Disconnecting { devices, selected_device: selected },
                ActionView::Disconnect { device_path: devices[selected].path },
            )
        },
        None => (s, ActionView::Idle),
    }
}

/// A connection attempt or a disconnection ended.
pub open spec fn operation_finished(s: AppView, outcome: Result<(), Seq<char>>) -> (
    AppView,
    ActionView,
) {
    match outcome {
        Ok(_) => rescan(s),
        Err(e) => (error_from(s, e), ActionView::Idle),
    }
}

/// Whether a network can be joined without asking for a password.
pub open spec fn joins_at_once(network: NetworkView) -> bool {
    network.security == Security::Open || network.is_saved
}

/// The user picked a network. One that is open or saved is joined at once,
/// with an empty password; for any other the password entry opens.
pub open spec fn connect_requested(s: AppView, ssid: Seq<char>) -> (AppView, ActionView) {
    match s {
        AppView::Loaded { devices, selected_device, networks, wifi_enabled, .. } => {
            let found = index_of_ssid(networks, ssid);
            if found is Some && joins_at_once(networks[found->0 as int]) {
                (
                    AppView::Connecting { devices, selected_device },
                    ActionView::Connect {
                        network: networks[found->0 as int],
                        password: Seq::empty(),
                    },
                )
            } else {
                (
                    AppView::Loaded {
                        devices,
                        selected_device,
                        networks,
                        connecting_ssid: Some(ssid),
                        password: Seq::empty(),
                        wifi_enabled,
                    },
                    ActionView::FocusPassword,
                )
            }
        },
        _ => (s, ActionView::Idle),
    }
}

/// The user edited the password.
pub open spec fn password_changed(s: AppView, text: Seq<char>) -> AppView {
    match s {
        AppView::Loaded {
            devices,
            selected_device,
            networks,
            connecting_ssid,
            wifi_enabled,
            ..
        } => AppView::Loaded {
            devices,
            selected_device,
            networks,
            connecting_ssid,
            password: text,
            wifi_enabled,
        },
        _ => s,
    }
}

/// The user submitted the password.
pub open spec fn submit_connect(s: AppView) -> (AppView, ActionView) {
    match s {
        AppView::Loaded {
            devices,
            selected_device,
            networks,
            connecting_ssid: Some(ssid),
            password,
            ..
        } => match index_of_ssid(networks, ssid) {
            Some(i) => (
                AppView::Connecting { devices, selected_device },
                ActionView::Connect { network: networks[i as int], password },
            ),
            None => (s, ActionView::Idle),
        },
        _ => (s, ActionView::Idle),
    }
}

/// The user cancelled: the password entry if one is open, else the
/// application if the list is on display, else the error if it has devices
/// to go back to.
pub open spec fn cancel_connect(s: AppView) -> (AppView, ActionView) {
    match s {
        AppView::Loaded {
            devices,
            selected_device,
            networks,
            connecting_ssid,
            wifi_enabled,
            ..
        } => if connecting_ssid is Some {
            (
                AppView::Loaded {
                    devices,
                    selected_device,
                    networks,
                    connecting_ssid: None,
                    password: Seq::empty(),
                    wifi_enabled,
                },
                ActionView::Idle,
            )
        } else {
            (s, ActionView::Exit)
        },
        AppView::Error { .. } => rescan(s),
        _ => (s, ActionView::Idle),
    }
}

/// The list that is on display with the radio off: no networks, no password
/// entry.
pub open spec fn radio_off(devices: Seq<WifiDeviceView>, selected: int) -> AppView {
    AppView::Loaded {
        devices,
        selected_device: selected,
        networks: Seq::empty(),
        connecting_ssid: None,
        password: Seq::empty(),
        wifi_enabled: false,
    }
}

/// The state of the radio was read. Found on, the list stays as it is; found
/// off, the list is cleared and an open password entry is closed.
pub open spec fn wifi_enabled_loaded(s: AppView, enabled: bool) -> AppView {
    match s {
        AppView::Loaded {
            devices,
            selected_device,
            networks,
            connecting_ssid,
            password,
            ..
        } => if enabled {
            AppView::Loaded {
                devices,
                selected_device,
                networks,
                connecting_ssid,
                password,
                wifi_enabled: true,
            }
        } else {
            radio_off(devices, selected_device)
        },
        _ => s,
    }
}

/// The radio was switched. Switched on, everything is loaded anew; switched
/// off, the list is cleared and an open password entry is closed.
pub open spec fn wifi_toggled(s: AppView, enabled: bool) -> (AppView, ActionView) {
    if enabled {
        reload(s)
    } else {
        match s {
            AppView::Loaded { devices, selected_device, .. } => (
                radio_off(devices, selected_device),
                ActionView::Idle,
            ),
            _ => (s, ActionView::Idle),
        }
    }
}

/// The state that follows `s` on message `m`, and what the driver has to do.
pub open spec fn transition(s: AppView, m: MessageView) -> (AppView, ActionView) {
    match m {
        MessageView::DevicesLoaded(Ok(devices)) => devices_loaded(s, devices),
        MessageView::DevicesLoaded(Err(e)) => (
            AppView::Error { message: e, devices: None, selected_device: 0 },
            ActionView::Idle,
        ),
        MessageView::DeviceSelected(device) => device_selected(s, device),
        MessageView::NetworksLoaded(Ok(networks), for_device) => (
            networks_loaded(s, networks, for_device),
            ActionView::Idle,
        ),
        MessageView::NetworksLoaded(Err(e), _) => (error_from(s, e), ActionView::Idle),
        MessageView::NetworkChanged => network_changed(s),
        MessageView::DevicesChanged => reload(s),
        MessageView::Refresh => refresh(s),
        MessageView::Back => back(s),
        MessageView::Disconnect => disconnect_requested(s),
        MessageView::Disconnected(outcome) => operation_finished(s, outcome),
        MessageView::Connect(ssid) => connect_requested(s, ssid),
        MessageView::PasswordChanged(text) => (password_changed(s, text), ActionView::Idle),
        MessageView::SubmitConnect => submit_connect(s),
        MessageView::CancelConnect => cancel_connect(s),
        MessageView::Connected(outcome) => operation_finished(s, outcome),
        MessageView::WifiEnabledChanged => (s, ActionView::QueryRadio),
        MessageView::WifiEnabledLoaded(Ok(enabled)) => (
            wifi_enabled_loaded(s, enabled),
            ActionView::Idle,
        ),
        MessageView::WifiEnabledLoaded(Err(e)) => (error_from(s, e), ActionView::Idle),
        MessageView::ToggleWifi(enabled) => (s, ActionView::SetRadio { enabled }),
        MessageView::WifiToggled(Ok(enabled)) => wifi_toggled(s, enabled),
        MessageView::WifiToggled(Err(e)) => (error_from(s, e), ActionView::Idle),
    }
}

/// The device whose access-point changes the driver has to listen to: the
/// selected one while the list is on display and the radio is on, none
/// otherwise.
pub open spec fn watched_device(s: AppView) -> Option<Seq<char>> {
    match s {
        AppView::Loaded { devices, selected_device, wifi_enabled, .. } => if wifi_enabled {
            Some(devices[selected_device].path)
        } else {
            None
        },
        _ => None,
    }
}

/// The view of `App`: the state on display, and whether a connection
/// attempt or a disconnection has been asked for and has not ended yet.
pub struct MachineView {
    pub state: AppView,
    pub in_flight: bool,
}

impl MachineView {
    /// The state is well formed, and while it shows a connection attempt or
    /// a disconnection, one is under way.
    pub open spec fn wf(self) -> bool {
        self.state.wf() && (self.state.is_busy() ==> self.in_flight)
    }
}

/// Whether the message asks to join or to leave a network.
pub open spec fn is_request(m: MessageView) -> bool {
    m is Connect || m is SubmitConnect || m is Disconnect
}

/// Whether the message brings the outcome of a connection attempt or of a
/// disconnection.
pub open spec fn is_outcome(m: MessageView) -> bool {
    m is Connected || m is Disconnected
}

/// Whether the action has the driver join or leave a network.
pub open spec fn is_operation(action: ActionView) -> bool {
    action is Connect || action is Disconnect
}

/// What the application does on message `m`. While a connection attempt or a
/// disconnection is under way, a message that would ask for another one is
/// dropped. Every other message moves the state as `transition` says, also a
/// request that only opens the password entry; an operation is under way
/// from the action that asks for it until its outcome arrives.
pub open spec fn machine_step(v: MachineView, m: MessageView) -> (MachineView, ActionView) {
    let (state, action) = transition(v.state, m);
    if v.in_flight && is_operation(action) {
        (v, ActionView::Idle)
    } else {
        (
            MachineView {
                state,
                in_flight: !is_outcome(m) && (v.in_flight || is_operation(action)),
            },
            action,
        )
    }
}

/// The application: one state, changed by `update` only.
#[derive(Debug)]
pub struct App {
    state: AppState,
    in_flight: bool,
}

impl View for App {
    type V = MachineView;

    closed spec fn view(&self) -> MachineView {
        MachineView { state: self.state@, in_flight: self.in_flight }
    }
}

/// The view of a device list with an index.
pub open spec fn info_view(info: Option<(Vec<WifiDevice>, usize)>) -> Option<
    (Seq<WifiDeviceView>, int),
> {
    match info {
        Some((devices, selected)) => Some((device_views(devices@), selected as int)),
        None => None,
    }
}

/// Moves the device list out of a state that has one; hands the state back
/// where it has none.
fn take_devices(state: AppState) -> (taken: Result<(Vec<WifiDevice>, usize), AppState>)
    ensures
        match taken {
            Ok((devices, selected)) => state@.device_info() == Some(
                (device_views(devices@), selected as int),
            ),
            Err(same) => state@.device_info() is None && same == state,
        },
{
    match state {
        AppState::Loaded { devices, selected_device, .. } => Ok((devices, selected_device)),
        AppState::Connecting { devices, selected_device } => Ok((devices, selected_device)),
        AppState::Disconnecting { devices, selected_device } => Ok((devices, selected_device)),
        AppState::Error { message, devices, selected_device } => match devices {
            Some(list) => Ok((list, selected_device)),
            None => Err(AppState::Error { message, devices: None, selected_device }),
        },
        AppState::Loading { previous } => Err(AppState::Loading { previous }),
    }
}

/// Whether the state has a selected device, and it is the one at `path`.
fn selected_path_is(state: &AppState, path: &String) -> (same: bool)
    requires
        state@.wf(),
    ensures
        same == (state@.selected_path() == Some(path@)),
{
    match state {
        AppState::Loaded { devices, selected_device, .. } => devices[*selected_device].path
            == *path,
        AppState::Connecting { devices, selected_device } => devices[*selected_device].path
            == *path,
        AppState::Disconnecting { devices, selected_device } => devices[*selected_device].path
            == *path,
        AppState::Error { devices, selected_device, .. } => match devices {
            Some(list) => list[*selected_device].path == *path,
            None => false,
        },
        AppState::Loading { previous } => match previous {
            Some(before) => *before == *path,
            None => false,
        },
    }
}

/// Path of the selected device, in every state that has one.
fn selected_path_of(state: &AppState) -> (path: Option<String>)
    requires
        state@.wf(),
    ensures
        match path {
            Some(p) => state@.selected_path() == Some(p@),
            None => state@.selected_path() is None,
        },
{
    match state {
        AppState::Loaded { devices, selected_device, .. } => Some(
            devices[*selected_device].path.clone(),
        ),
        AppState::Connecting { devices, selected_device } => Some(
            devices[*selected_device].path.clone(),
        ),
        AppState::Disconnecting { devices, selected_device } => Some(
            devices[*selected_device].path.clone(),
        ),
        AppState::Error { devices, selected_device, .. } => match devices {
            Some(list) => Some(list[*selected_device].path.clone()),
            None => None,
        },
        AppState::Loading { previous } => match previous {
            Some(before) => Some(before.clone()),
            None => None,
        },
    }
}

/// Whether a connection attempt or a disconnection is on display.
fn is_busy(state: &AppState) -> (busy: bool)
    ensures
        busy == state@.is_busy(),
{
    match state {
        AppState::Connecting { .. } => true,
        AppState::Disconnecting { .. } => true,
        _ => false,
    }
}

fn radio_off_state(devices: Vec<WifiDevice>, selected: usize) -> (state: AppState)
    ensures
        state@ == radio_off(device_views(devices@), selected as int),
{
    let networks: Vec<Network> = Vec::new();
    proof {
        assert(network_views(networks@) =~= Seq::empty());
    }
    AppState::Loaded {
        devices,
        selected_device: selected,
        networks,
        connecting_ssid: None,
        password: String::new(),
        wifi_enabled: false,
    }
}

fn on_reload(state: AppState) -> (next: (AppState, Action))
    requires
        state@.wf(),
    ensures
        (next.0@, next.1@) == reload(state@),
        next.0@.wf(),
{
    let previous = selected_path_of(&state);
    (AppState::Loading { previous }, Action::ListDevices)
}

fn fresh_loaded(devices: Vec<WifiDevice>, selected: usize) -> (state: AppState)
    ensures
        state@ == fresh(device_views(devices@), selected as int),
{
    let networks: Vec<Network> = Vec::new();
    let password = String::new();
    proof {
        assert(network_views(networks@) =~= Seq::empty());
    }
    AppState::Loaded {
        devices,
        selected_device: selected,
        networks,
        connecting_ssid: None,
        password,
        wifi_enabled: true,
    }
}

/// The scan of the selected device.
fn scan_selected(devices: &Vec<WifiDevice>, selected: usize) -> (action: Action)
    requires
        selected < devices.len(),
    ensures
        action@ == (ActionView::Scan { device_path: device_views(devices@)[selected as int].path }),
{
    Action::Scan { device_path: devices[selected].path.clone() }
}

fn into_error(state: AppState, message: String) -> (next: AppState)
    requires
        state@.wf(),
    ensures
        next@ == error_from(state@, message@),
        next@.wf(),
{
    match take_devices(state) {
        Ok((devices, selected)) => AppState::Error {
            message,
            devices: Some(devices),
            selected_device: selected,
        },
        Err(_) => AppState::Error { message, devices: None, selected_device: 0 },
    }
}

fn on_rescan(state: AppState) -> (next: (AppState, Action))
    requires
        state@.wf(),
    ensures
        (next.0@, next.1@) == rescan(state@),
        next.0@.wf(),
{
    match take_devices(state) {
        Ok((devices, selected)) => {
            let action = scan_selected(&devices, selected);
            (fresh_loaded(devices, selected), action)
        },
        Err(same) => (same, Action::Idle),
    }
}

fn on_refresh(state: AppState) -> (next: (AppState, Action))
    requires
        state@.wf(),
    ensures
        (next.0@, next.1@) == refresh(state@),
        next.0@.wf(),
{
    if is_busy(&state) {
        (state, Action::Idle)
    } else {
        on_rescan(state)
    }
}

fn on_devices_loaded(state: AppState, devices: Vec<WifiDevice>) -> (next: (AppState, Action))
    requires
        state@.wf(),
    ensures
        (next.0@, next.1@) == devices_loaded(state@, device_views(devices@)),
        next.0@.wf(),
{
    if devices.len() == 0 {
        let message = NmError::NoWirelessDevice.message();
        return (AppState::Error { message, devices: None, selected_device: 0 }, Action::Idle);
    }
    let selected = match selected_path_of(&state) {
        Some(path) => match find_device(&devices, &path) {
            Some(i) => i,
            None => 0,
        },
        None => 0,
    };
    proof {
        lemma_index_of_path_bounds(device_views(devices@), state@.selected_path());
    }
    let action = Action::ScanAndQueryRadio { device_path: devices[selected].path.clone() };
    (fresh_loaded(devices, selected), action)
}

fn on_device_selected(state: AppState, device: WifiDevice) -> (next: (AppState, Action))
    requires
        state@.wf(),
    ensures
        (next.0@, next.1@) == device_selected(state@, device@),
        next.0@.wf(),
{
    match state {
        AppState::Loaded {
            devices,
            selected_device,
            networks,
            connecting_ssid,
            password,
            wifi_enabled,
        } => match find_device(&devices, &device.path) {
            Some(i) => {
                proof {
                    lemma_index_of_path(device_views(devices@), device.path@);
                }
                let action = scan_selected(&devices, i);
                let cleared: Vec<Network> = Vec::new();
                proof {
                    assert(network_views(cleared@) =~= Seq::empty());
                }
                (
                    AppState::Loaded {
                        devices,
                        selected_device: i,
                        networks: cleared,
                        connecting_ssid: None,
                        password: String::new(),
                        wifi_enabled,
                    },
                    action,
                )
            },
            None => (
                AppState::Loaded {
                    devices,
                    selected_device,
                    networks,
                    connecting_ssid,
                    password,
                    wifi_enabled,
                },
                Action::Idle,
            ),
        },
        other => (other, Action::Idle),
    }
}

fn on_networks_loaded(state: AppState, networks: Vec<Network>, for_device: String) -> (next:
    AppState)
    requires
        state@.wf(),
    ensures
        next@ == networks_loaded(state@, network_views(networks@), for_device@),
        next@.wf(),
{
    let for_selected = selected_path_is(&state, &for_device) && !is_busy(&state);
    match state {
        AppState::Loaded {
            devices,
            selected_device,
            networks: shown,
            connecting_ssid,
            password,
            wifi_enabled,
        } => {
            let list = if for_selected && wifi_enabled {
                networks
            } else {
                shown
            };
            AppState::Loaded {
                devices,
                selected_device,
                networks: list,
                connecting_ssid,
                password,
                wifi_enabled,
            }
        },
        other => {
            if for_selected {
                match take_devices(other) {
                    Ok((devices, selected)) => AppState::Loaded {
                        devices,
                        selected_device: selected,
                        networks,
                        connecting_ssid: None,
                        password: String::new(),
                        wifi_enabled: true,
                    },
                    Err(same) => same,
                }
            } else {
                other
            }
        },
    }
}

fn on_network_changed(state: AppState) -> (next: (AppState, Action))
    requires
        state@.wf(),
    ensures
        (next.0@, next.1@) == network_changed(state@),
        next.0 == state,
{
    let action = match &state {
        AppState::Loaded { devices, selected_device, .. } => scan_selected(
            devices,
            *selected_device,
        ),
        _ => Action::Idle,
    };
    (state, action)
}

fn on_back(state: AppState) -> (next: (AppState, Action))
    requires
        state@.wf(),
    ensures
        (next.0@, next.1@) == back(state@),
        next.0@.wf(),
{
    match state {
        AppState::Error { message, devices, selected_device } => on_rescan(
            AppState::Error { message, devices, selected_device },
        ),
        other => (other, Action::Idle),
    }
}

fn on_disconnect(state: AppState) -> (next: (AppState, Action))
    requires
        state@.wf(),
    ensures
        (next.0@, next.1@) == disconnect_requested(state@),
        next.0@.wf(),
{
    if is_busy(&state) {
        return (state, Action::Idle);
    }
    match take_devices(state) {
        Ok((devices, selected)) => {
            let action = Action::Disconnect { device_path: devices[selected].path.clone() };
            (AppState::Disconnecting { devices, selected_device: selected }, action)
        },
        Err(same) => (same, Action::Idle),
    }
}

fn on_finished(state: AppState, outcome: Result<(), String>) -> (next: (AppState, Action))
    requires
        state@.wf(),
    ensures
        (next.0@, next.1@) == operation_finished(
            state@,
            match outcome {
                Ok(_) => Ok(()),
                Err(e) => Err(e@),
            },
        ),
        next.0@.wf(),
{
    match outcome {
        Ok(_) => on_rescan(state),
        Err(e) => (into_error(state, e), Action::Idle),
    }
}

fn on_connect(state: AppState, ssid: String) -> (next: (AppState, Action))
    requires
        state@.wf(),
    ensures
        (next.0@, next.1@) == connect_requested(state@, ssid@),
        next.0@.wf(),
{
    match state {
        AppState::Loaded { devices, selected_device, networks, wifi_enabled, .. } => {
            let found = find_network(&networks, &ssid);
            proof {
                lemma_index_of_ssid(network_views(networks@), ssid@);
            }
            let at_once = match found {
                Some(i) => networks[i].security == Security::Open || networks[i].is_saved,
                None => false,
            };
            if at_once {
                let network = networks[found.unwrap()].clone();
                (
                    AppState::Connecting { devices, selected_device },
                    Action::Connect { network, password: String::new() },
                )
            } else {
                (
                    AppState::Loaded {
                        devices,
                        selected_device,
                        networks,
                        connecting_ssid: Some(ssid),
                        password: String::new(),
                        wifi_enabled,
                    },
                    Action::FocusPassword,
                )
            }
        },
        other => (other, Action::Idle),
    }
}

fn on_password_changed(state: AppState, text: String) -> (next: AppState)
    requires
        state@.wf(),
    ensures
        next@ == password_changed(state@, text@),
        next@.wf(),
{
    match state {
        AppState::Loaded {
            devices,
            selected_device,
            networks,
            connecting_ssid,
            wifi_enabled,
            ..
        } => AppState::Loaded {
            devices,
            selected_device,
            networks,
            connecting_ssid,
            password: text,
            wifi_enabled,
        },
        other => other,
    }
}

fn on_submit(state: AppState) -> (next: (AppState, Action))
    requires
        state@.wf(),
    ensures
        (next.0@, next.1@) == submit_connect(state@),
        next.0@.wf(),
{
    match state {
        AppState::Loaded {
            devices,
            selected_device,
            networks,
            connecting_ssid,
            password,
            wifi_enabled,
        } => {
            let found = match &connecting_ssid {
                Some(ssid) => {
                    proof {
                        lemma_index_of_ssid(network_views(networks@), ssid@);
                    }
                    find_network(&networks, ssid)
                },
                None => None,
            };
            match found {
                Some(i) => {
                    let network = networks[i].clone();
                    (
                        AppState::Connecting { devices, selected_device },
                        Action::Connect { network, password },
                    )
                },
                None => (
                    AppState::Loaded {
                        devices,
                        selected_device,
                        networks,
                        connecting_ssid,
                        password,
                        wifi_enabled,
                    },
                    Action::Idle,
                ),
            }
        },
        other => (other, Action::Idle),
    }
}

fn on_cancel(state: AppState) -> (next: (AppState, Action))
    requires
        state@.wf(),
    ensures
        (next.0@, next.1@) == cancel_connect(state@),
        next.0@.wf(),
{
    match state {
        AppState::Loaded {
            devices,
            selected_device,
            networks,
            connecting_ssid,
            password,
            wifi_enabled,
        } => {
            if connecting_ssid.is_some() {
                (
                    AppState::Loaded {
                        devices,
                        selected_device,
                        networks,
                        connecting_ssid: None,
                        password: String::new(),
                        wifi_enabled,
                    },
                    Action::Idle,
                )
            } else {
                (
                    AppState::Loaded {
                        devices,
                        selected_device,
                        networks,
                        connecting_ssid,
                        password,
                        wifi_enabled,
                    },
                    Action::Exit,
                )
            }
        },
        AppState::Error { message, devices, selected_device } => on_rescan(
            AppState::Error { message, devices, selected_device },
        ),
        other => (other, Action::Idle),
    }
}

fn on_wifi_enabled_loaded(state: AppState, enabled: bool) -> (next: AppState)
    requires
        state@.wf(),
    ensures
        next@ == wifi_enabled_loaded(state@, enabled),
        next@.wf(),
{
    match state {
        AppState::Loaded { devices, selected_device, networks, connecting_ssid, password, .. } => {
            if enabled {
                AppState::Loaded {
                    devices,
                    selected_device,
                    networks,
                    connecting_ssid,
                    password,
                    wifi_enabled: true,
                }
            } else {
                radio_off_state(devices, selected_device)
            }
        },
        other => other,
    }
}

fn on_wifi_toggled(state: AppState, enabled: bool) -> (next: (AppState, Action))
    requires
        state@.wf(),
    ensures
        (next.0@, next.1@) == wifi_toggled(state@, enabled),
        next.0@.wf(),
{
    if enabled {
        return on_reload(state);
    }
    match state {
        AppState::Loaded { devices, selected_device, .. } => (
            radio_off_state(devices, selected_device),
            Action::Idle,
        ),
        other => (other, Action::Idle),
    }
}

/// Whether the message would have the driver join or leave a network, were it
/// taken in this state.
fn asks_for_operation(state: &AppState, message: &Message) -> (yes: bool)
    requires
        state@.wf(),
    ensures
        yes == is_operation(transition(state@, message@).1),
{
    match message {
        Message::Disconnect => match state {
            AppState::Loaded { .. } => true,
            AppState::Error { devices, .. } => devices.is_some(),
            _ => false,
        },
        Message::Connect(ssid) => match state {
            AppState::Loaded { networks, .. } => match find_network(networks, ssid) {
                Some(i) => networks[i].security == Security::Open || networks[i].is_saved,
                None => false,
            },
            _ => false,
        },
        Message::SubmitConnect => match state {
            AppState::Loaded { networks, connecting_ssid, .. } => match connecting_ssid {
                Some(ssid) => find_network(networks, ssid).is_some(),
                None => false,
            },
            _ => false,
        },
        _ => false,
    }
}

fn is_outcome_message(message: &Message) -> (yes: bool)
    ensures
        yes == is_outcome(message@),
{
    match message {
        Message::Connected(_) => true,
        Message::Disconnected(_) => true,
        _ => false,
    }
}

fn is_operation_action(action: &Action) -> (yes: bool)
    ensures
        yes == is_operation(action@),
{
    match action {
        Action::Connect { .. } => true,
        Action::Disconnect { .. } => true,
        _ => false,
    }
}

/// One step of the state machine on a state held by value.
fn step(state: AppState, message: Message) -> (next: (AppState, Action))
    requires
        state@.wf(),
    ensures
        (next.0@, next.1@) == transition(state@, message@),
        next.0@.wf(),
{
    match message {
        Message::DevicesLoaded(Ok(devices)) => on_devices_loaded(state, devices),
        Message::DevicesLoaded(Err(e)) => (
            AppState::Error { message: e, devices: None, selected_device: 0 },
            Action::Idle,
        ),
        Message::DeviceSelected(device) => on_device_selected(state, device),
        Message::NetworksLoaded(Ok(networks), for_device) => (
            on_networks_loaded(state, networks, for_device),
            Action::Idle,
        ),
        Message::NetworksLoaded(Err(e), _) => (into_error(state, e), Action::Idle),
        Message::NetworkChanged => on_network_changed(state),
        Message::DevicesChanged => on_reload(state),
        Message::Refresh => on_refresh(state),
        Message::Back => on_back(state),
        Message::Disconnect => on_disconnect(state),
        Message::Disconnected(outcome) => on_finished(state, outcome),
        Message::Connect(ssid) => on_connect(state, ssid),
        Message::PasswordChanged(text) => (on_password_changed(state, text), Action::Idle),
        Message::SubmitConnect => on_submit(state),
        Message::CancelConnect => on_cancel(state),
        Message::Connected(outcome) => on_finished(state, outcome),
        Message::WifiEnabledChanged => (state, Action::QueryRadio),
        Message::WifiEnabledLoaded(Ok(enabled)) => (
            on_wifi_enabled_loaded(state, enabled),
            Action::Idle,
        ),
        Message::WifiEnabledLoaded(Err(e)) => (into_error(state, e), Action::Idle),
        Message::ToggleWifi(enabled) => (state, Action::SetRadio { enabled }),
        Message::WifiToggled(Ok(enabled)) => on_wifi_toggled(state, enabled),
        Message::WifiToggled(Err(e)) => (into_error(state, e), Action::Idle),
    }
}

impl App {
    #[verifier::type_invariant]
    spec fn well_formed(&self) -> bool {
        self@.wf()
    }

    /// The application at start: nothing loaded, and the device list asked
    /// for.
    pub fn new() -> (start: (App, Action))
        ensures
            start.0@ == (MachineView {
                state: AppView::Loading { previous: None },
                in_flight: false,
            }),
            start.1@ == ActionView::ListDevices,
    {
        (
            App { state: AppState::Loading { previous: None }, in_flight: false },
            Action::ListDevices,
        )
    }

    /// The current state, for display.
    pub fn state(&self) -> (state: &AppState)
        ensures
            state@ == self@.state,
            self@.wf(),
    {
        proof {
            use_type_invariant(self);
        }
        &self.state
    }

    /// Whether a connection attempt or a disconnection has been asked for and
    /// has not ended yet.
    pub fn in_flight(&self) -> (yes: bool)
        ensures
            yes == self@.in_flight,
    {
        self.in_flight
    }

    /// The device list and the selected index, in every state that has them.
    pub fn device_info(&self) -> (info: Option<(Vec<WifiDevice>, usize)>)
        ensures
            info_view(info) == self@.state.device_info(),
            info matches Some((devices, selected)) ==> selected < devices.len(),
    {
        proof {
            use_type_invariant(self);
        }
        match &self.state {
            AppState::Loaded { devices, selected_device, .. } => Some(
                (clone_devices(devices), *selected_device),
            ),
            AppState::Connecting { devices, selected_device } => Some(
                (clone_devices(devices), *selected_device),
            ),
            AppState::Disconnecting { devices, selected_device } => Some(
                (clone_devices(devices), *selected_device),
            ),
            AppState::Error { devices, selected_device, .. } => match devices {
                Some(list) => Some((clone_devices(list), *selected_device)),
                None => None,
            },
            AppState::Loading { .. } => None,
        }
    }

    /// Moves to the error state with the given text. The devices stay where
    /// they were known.
    pub fn goto_error(&mut self, e: String)
        ensures
            final(self)@ == (MachineView {
                state: error_from(old(self)@.state, e@),
                in_flight: old(self)@.in_flight,
            }),
    {
        proof {
            use_type_invariant(&*self);
        }
        let mut state = AppState::Loading { previous: None };
        core::mem::swap(&mut self.state, &mut state);
        self.state = into_error(state, e);
    }

    /// Reacts to one message: moves to the next state and says what the
    /// driver has to do.
    pub fn update(&mut self, message: Message) -> (action: Action)
        ensures
            (final(self)@, action@) == machine_step(old(self)@, message@),
    {
        proof {
            use_type_invariant(&*self);
        }
        if self.in_flight && asks_for_operation(&self.state, &message) {
            return Action::Idle;
        }
        let outcome = is_outcome_message(&message);
        let mut state = AppState::Loading { previous: None };
        core::mem::swap(&mut self.state, &mut state);
        let (next, action) = step(state, message);
        self.in_flight = !outcome && (self.in_flight || is_operation_action(&action));
        self.state = next;
        action
    }

    /// The device whose access-point changes the driver has to listen to
    /// right now, if any.
    pub fn network_subscription(&self) -> (device_path: Option<String>)
        ensures
            match device_path {
                Some(path) => watched_device(self@.state) == Some(path@),
                None => watched_device(self@.state) is None,
            },
    {
        proof {
            use_type_invariant(self);
        }
        match &self.state {
            AppState::Loaded { devices, selected_device, wifi_enabled, .. } => {
                if *wifi_enabled {
                    Some(devices[*selected_device].path.clone())
                } else {
                    None
                }
            },
            _ => None,
        }
    }
}

} // verus!
