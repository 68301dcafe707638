//! What holds of the state machine in every state and for every message.

use vstd::prelude::*;
use crate::app::{
    error_from, fresh, is_operation, is_outcome, is_request, joins_at_once, machine_step,
    radio_off, transition, watched_device, ActionView, AppView, MachineView, MessageView,
};
use crate::device::{lemma_index_of_path, WifiDeviceView};
use crate::network::{lemma_index_of_ssid, NetworkView};

verus! {

/// No message leads out of the well-formed states: the selected index always
/// points into the device list.
pub proof fn lemma_transition_keeps_well_formed(s: AppView, m: MessageView)
    requires
        s.wf(),
    ensures
        transition(s, m).0.wf(),
{
    match m {
        MessageView::DevicesLoaded(Ok(devices)) => {
            if let Some(path) = s.selected_path() {
                lemma_index_of_path(devices, path);
            }
        },
        MessageView::DeviceSelected(device) => {
            if let AppView::Loaded { devices, .. } = s {
                lemma_index_of_path(devices, device.path);
            }
        },
        _ => {},
    }
}

/// A device list that arrives is taken over, and the device that was selected
/// before stays selected if the new list still holds a device with its path:
/// the first such one. Otherwise the first device of the new list is
/// selected.
pub proof fn lemma_reload_keeps_selection(s: AppView, devices: Seq<WifiDeviceView>)
    requires
        s.wf(),
        devices.len() > 0,
    ensures
        ({
            let next = transition(s, MessageView::DevicesLoaded(Ok(devices))).0;
            &&& next is Loaded
            &&& next->Loaded_devices == devices
            &&& 0 <= next->Loaded_selected_device < devices.len()
            &&& match s.selected_path() {
                Some(path) => if exists|i: int| 0 <= i < devices.len() && devices[i].path == path {
                    &&& devices[next->Loaded_selected_device].path == path
                    &&& forall|j: int|
                        0 <= j < next->Loaded_selected_device ==> devices[j].path != path
                } else {
                    next->Loaded_selected_device == 0
                },
                None => next->Loaded_selected_device == 0,
            }
        }),
{
    if let Some(path) = s.selected_path() {
        lemma_index_of_path(devices, path);
    }
}

/// A scan result that was asked for one device changes nothing once another
/// device is selected, or none.
pub proof fn lemma_stale_scan_is_dropped(
    s: AppView,
    networks: Seq<NetworkView>,
    for_device: Seq<char>,
)
    requires
        s.wf(),
        s.selected_path() != Some(for_device),
    ensures
        transition(s, MessageView::NetworksLoaded(Ok(networks), for_device)) == (
            s,
            ActionView::Idle,
        ),
{
}

/// A scan result for the selected device is shown: in the list that is on
/// display while the radio is on, and in a fresh list from an error that kept
/// its devices.
pub proof fn lemma_current_scan_is_shown(
    s: AppView,
    networks: Seq<NetworkView>,
    for_device: Seq<char>,
)
    requires
        s.wf(),
        s.device_info() is Some,
        s.selected_path() == Some(for_device),
        s matches AppView::Loaded { wifi_enabled, .. } ==> wifi_enabled,
        !s.is_busy(),
    ensures
        ({
            let next = transition(s, MessageView::NetworksLoaded(Ok(networks), for_device)).0;
            &&& next is Loaded
            &&& next->Loaded_networks == networks
            &&& next.device_info() == s.device_info()
        }),
{
}

/// Picking a network that is open or saved starts the connection at once,
/// with an empty password. Picking any other one, or an SSID that is not in
/// the list, opens the password entry for it and leaves the rest of the state
/// as it was.
pub proof fn lemma_connect_request(s: AppView, ssid: Seq<char>)
    requires
        s.wf(),
        s is Loaded,
    ensures
        ({
            let (next, action) = transition(s, MessageView::Connect(ssid));
            let networks = s->Loaded_networks;
            if exists|i: int|
                0 <= i < networks.len() && networks[i].ssid == ssid && (forall|j: int|
                    0 <= j < i ==> networks[j].ssid != ssid) && joins_at_once(networks[i]) {
                &&& next == (AppView::Connecting {
                    devices: s->Loaded_devices,
                    selected_device: s->Loaded_selected_device,
                })
                &&& action is Connect
                &&& action->Connect_network.ssid == ssid
                &&& joins_at_once(action->Connect_network)
                &&& action->password == Seq::<char>::empty()
            } else {
                &&& action == ActionView::FocusPassword
                &&& next == (AppView::Loaded {
                    devices: s->Loaded_devices,
                    selected_device: s->Loaded_selected_device,
                    networks,
                    connecting_ssid: Some(ssid),
                    password: Seq::empty(),
                    wifi_enabled: s->wifi_enabled,
                })
            }
        }),
{
    lemma_index_of_ssid(s->Loaded_networks, ssid);
}

/// The driver is told to connect only on the way into `Connecting`, and to
/// disconnect only on the way into `Disconnecting`, and each time for the
/// device that is selected.
pub proof fn lemma_operations_enter_their_state(s: AppView, m: MessageView)
    requires
        s.wf(),
    ensures
        ({
            let (next, action) = transition(s, m);
            &&& action is Connect || action is Disconnect ==> !(s is Connecting) && !(s
                is Disconnecting)
            &&& action is Connect ==> s is Loaded && next is Connecting && next.device_info()
                == s.device_info()
            &&& action is Disconnect ==> next is Disconnecting && next.device_info()
                == s.device_info() && Some(action->Disconnect_device_path) == s.selected_path()
        }),
{
}

/// While the radio is off, the list of networks only ever gets shorter: it
/// stays as it is or is cleared, and no device is watched.
pub proof fn lemma_radio_off_freezes_networks(s: AppView, m: MessageView)
    requires
        s.wf(),
        s matches AppView::Loaded { wifi_enabled, .. } && !wifi_enabled,
    ensures
        watched_device(s) is None,
        ({
            let next = transition(s, m).0;
            next is Loaded && !next->wifi_enabled ==> next->Loaded_networks == s->Loaded_networks
                || next->Loaded_networks == Seq::<NetworkView>::empty()
        }),
{
}

/// Switching the radio off clears the list and closes the password entry.
pub proof fn lemma_radio_off_clears(s: AppView)
    requires
        s.wf(),
        s is Loaded,
    ensures
        transition(s, MessageView::WifiToggled(Ok(false))).0 == (AppView::Loaded {
            devices: s->Loaded_devices,
            selected_device: s->Loaded_selected_device,
            networks: Seq::empty(),
            connecting_ssid: None,
            password: Seq::empty(),
            wifi_enabled: false,
        }),
{
}

/// Every failure of a scan, a connection attempt, a disconnection or a radio
/// query leads to the error state, which shows the text that came with it
/// and keeps the devices of the state before.
pub proof fn lemma_failures_show_error(s: AppView, e: Seq<char>, for_device: Seq<char>)
    requires
        s.wf(),
    ensures
        transition(s, MessageView::NetworksLoaded(Err(e), for_device)).0 == error_from(s, e),
        transition(s, MessageView::Connected(Err(e))).0 == error_from(s, e),
        transition(s, MessageView::Disconnected(Err(e))).0 == error_from(s, e),
        transition(s, MessageView::WifiEnabledLoaded(Err(e))).0 == error_from(s, e),
        transition(s, MessageView::WifiToggled(Err(e))).0 == error_from(s, e),
        error_from(s, e) is Error,
        error_from(s, e)->message == e,
        error_from(s, e).device_info() == s.device_info(),
{
}

/// From an error that kept its devices, going back shows a fresh list for
/// them and scans the selected one.
pub proof fn lemma_back_from_error(s: AppView)
    requires
        s.wf(),
        s is Error,
        s.device_info() is Some,
    ensures
        ({
            let (devices, selected) = s.device_info()->0;
            transition(s, MessageView::Back) == (
                fresh(devices, selected),
                ActionView::Scan { device_path: devices[selected].path },
            )
        }),
{
}

/// With the radio off no network is on display, and none comes to be on
/// display for as long as the radio stays off.
pub proof fn lemma_radio_off_shows_nothing(s: AppView, m: MessageView)
    requires
        s.wf(),
    ensures
        s is Loaded && !s->wifi_enabled ==> s->Loaded_networks.len() == 0,
        ({
            let next = transition(s, m).0;
            next is Loaded && !next->wifi_enabled ==> next->Loaded_networks.len() == 0
        }),
{
    lemma_transition_keeps_well_formed(s, m);
}

/// A radio that is found off clears the list and closes the password entry,
/// as switching it off does.
pub proof fn lemma_radio_found_off_clears(s: AppView)
    requires
        s.wf(),
        s is Loaded,
    ensures
        transition(s, MessageView::WifiEnabledLoaded(Ok(false))).0 == radio_off(
            s->Loaded_devices,
            s->Loaded_selected_device,
        ),
        transition(s, MessageView::WifiToggled(Ok(false))).0 == radio_off(
            s->Loaded_devices,
            s->Loaded_selected_device,
        ),
{
}

/// A reload keeps the selected device: when the device list has changed and
/// the new list arrives, the device that was selected before is selected
/// again if the new list holds a device with its path, the first such one;
/// otherwise the first device of the new list is selected.
pub proof fn lemma_reload_run_keeps_selection(s: AppView, devices: Seq<WifiDeviceView>)
    requires
        s.wf(),
        devices.len() > 0,
    ensures
        ({
            let (loading, first) = transition(s, MessageView::DevicesChanged);
            let (next, second) = transition(loading, MessageView::DevicesLoaded(Ok(devices)));
            &&& first == ActionView::ListDevices
            &&& loading == (AppView::Loading { previous: s.selected_path() })
            &&& next is Loaded
            &&& next->Loaded_devices == devices
            &&& 0 <= next->Loaded_selected_device < devices.len()
            &&& second == (ActionView::ScanAndQueryRadio {
                device_path: devices[next->Loaded_selected_device].path,
            })
            &&& match s.selected_path() {
                Some(path) => if exists|i: int| 0 <= i < devices.len() && devices[i].path == path {
                    &&& devices[next->Loaded_selected_device].path == path
                    &&& forall|j: int|
                        0 <= j < next->Loaded_selected_device ==> devices[j].path != path
                } else {
                    next->Loaded_selected_device == 0
                },
                None => next->Loaded_selected_device == 0,
            }
        }),
{
    if let Some(path) = s.selected_path() {
        lemma_index_of_path(devices, path);
    }
}

/// While no operation is under way, the application does what `transition`
/// says; so it does at any time on a message that asks for no operation.
pub proof fn lemma_machine_follows_transition(v: MachineView, m: MessageView)
    requires
        v.wf(),
        !v.in_flight || !is_operation(transition(v.state, m).1),
    ensures
        machine_step(v, m).0.state == transition(v.state, m).0,
        machine_step(v, m).1 == transition(v.state, m).1,
{
}

/// No message leads the application out of its well-formed states.
pub proof fn lemma_machine_keeps_well_formed(v: MachineView, m: MessageView)
    requires
        v.wf(),
    ensures
        machine_step(v, m).0.wf(),
{
    lemma_transition_keeps_well_formed(v.state, m);
}

/// While a connection attempt or a disconnection is under way, a message
/// that would ask for another one changes nothing and asks for nothing.
pub proof fn lemma_requests_wait(v: MachineView, m: MessageView)
    requires
        v.wf(),
        v.in_flight,
        is_operation(transition(v.state, m).1),
    ensures
        machine_step(v, m) == (v, ActionView::Idle),
{
}

/// In the states `Connecting` and `Disconnecting` a request to join or to
/// leave a network changes nothing and asks for nothing.
pub proof fn lemma_busy_takes_no_request(v: MachineView, m: MessageView)
    requires
        v.wf(),
        v.state.is_busy(),
        is_request(m),
    ensures
        machine_step(v, m) == (v, ActionView::Idle),
{
}

/// Picking a network that neither is open nor is saved opens the password
/// entry for it, also while an operation is under way: nothing is asked of
/// the service by that.
pub proof fn lemma_password_entry_opens(v: MachineView, ssid: Seq<char>)
    requires
        v.wf(),
        v.state is Loaded,
        !is_operation(transition(v.state, MessageView::Connect(ssid)).1),
    ensures
        machine_step(v, MessageView::Connect(ssid)) == (
            MachineView {
                state: AppView::Loaded {
                    devices: v.state->Loaded_devices,
                    selected_device: v.state->Loaded_selected_device,
                    networks: v.state->Loaded_networks,
                    connecting_ssid: Some(ssid),
                    password: Seq::empty(),
                    wifi_enabled: v.state->wifi_enabled,
                },
                in_flight: v.in_flight,
            },
            ActionView::FocusPassword,
        ),
{
}

/// Only a request asks for an operation, and only where none is under way;
/// the operation is then under way.
pub proof fn lemma_operation_begins(v: MachineView, m: MessageView)
    requires
        v.wf(),
        is_operation(machine_step(v, m).1),
    ensures
        is_request(m),
        !v.in_flight,
        !v.state.is_busy(),
        machine_step(v, m).0.in_flight,
        machine_step(v, m).0.state.is_busy(),
{
}

/// The application after a sequence of messages, and the actions it asked
/// for, one for each message.
pub open spec fn machine_run(v: MachineView, messages: Seq<MessageView>) -> (
    MachineView,
    Seq<ActionView>,
)
    decreases messages.len(),
{
    if messages.len() == 0 {
        (v, Seq::empty())
    } else {
        let (mid, asked) = machine_run(v, messages.drop_last());
        let (next, action) = machine_step(mid, messages.last());
        (next, asked.push(action))
    }
}

/// Whether an outcome arrives with one of the messages after `from` and
/// before `to`.
pub open spec fn outcome_between(messages: Seq<MessageView>, from: int, to: int) -> bool {
    exists|k: int| from < k < to && k < messages.len() && is_outcome(#[trigger] messages[k])
}

/// At most one operation is under way at any time: whatever messages arrive,
/// between two actions that ask to join or to leave a network the outcome of
/// the first has arrived; and an operation whose outcome has not arrived is
/// known to be under way.
pub proof fn lemma_one_operation_in_flight(v: MachineView, messages: Seq<MessageView>)
    requires
        v.wf(),
    ensures
        ({
            let (end, asked) = machine_run(v, messages);
            &&& end.wf()
            &&& asked.len() == messages.len()
            &&& forall|i: int, j: int|
                0 <= i < j < messages.len() && is_operation(#[trigger] asked[i]) && is_operation(
                    #[trigger] asked[j],
                ) ==> outcome_between(messages, i, j)
            &&& forall|i: int|
                0 <= i < messages.len() && is_operation(#[trigger] asked[i]) && !outcome_between(
                    messages,
                    i,
                    messages.len() as int,
                ) ==> end.in_flight
        }),
    decreases messages.len(),
{
    let n = messages.len() as int;
    if n > 0 {
        let front = messages.drop_last();
        let last = messages.last();
        lemma_one_operation_in_flight(v, front);
        let (mid, before) = machine_run(v, front);
        let (end, action) = machine_step(mid, last);
        let asked = before.push(action);
        assert(machine_run(v, messages) == (end, asked));
        lemma_machine_keeps_well_formed(mid, last);
        assert(forall|k: int| 0 <= k < n - 1 ==> front[k] == messages[k]);
        assert(forall|k: int| 0 <= k < n - 1 ==> asked[k] == before[k]);
        assert(asked[n - 1] == action);
        // an outcome among the earlier messages is one among all of them
        assert forall|i: int, to: int|
            0 <= i && to <= n - 1 && outcome_between(front, i, to) implies #[trigger] outcome_between(
            messages,
            i,
            to,
        ) by {
            let k = choose|k: int|
                i < k < to && k < front.len() && is_outcome(#[trigger] front[k]);
            assert(is_outcome(messages[k]));
        }
        assert forall|i: int, to: int|
            0 <= i && to <= n - 1 && #[trigger] outcome_between(messages, i, to) implies outcome_between(
            front,
            i,
            to,
        ) by {
            let k = choose|k: int|
                i < k < to && k < messages.len() && is_outcome(#[trigger] messages[k]);
            assert(is_outcome(front[k]));
        }
        assert forall|i: int|
            0 <= i < n && is_operation(#[trigger] asked[i]) && !outcome_between(
                messages,
                i,
                n,
            ) implies end.in_flight by {
            if i < n - 1 {
                assert(is_operation(before[i]));
                if outcome_between(front, i, n - 1) {
                    assert(outcome_between(messages, i, n - 1));
                    let k = choose|k: int|
                        i < k < n - 1 && k < messages.len() && is_outcome(#[trigger] messages[k]);
                    assert(outcome_between(messages, i, n));
                }
                assert(mid.in_flight);
                if is_outcome(last) {
                    assert(is_outcome(messages[n - 1]));
                    assert(outcome_between(messages, i, n));
                }
            } else {
                lemma_operation_begins(mid, last);
            }
        }
        assert forall|i: int, j: int|
            0 <= i < j < n && is_operation(#[trigger] asked[i]) && is_operation(
                #[trigger] asked[j],
            ) implies outcome_between(messages, i, j) by {
            assert(is_operation(before[i]));
            if j < n - 1 {
                assert(is_operation(before[j]));
                assert(outcome_between(front, i, j));
                assert(outcome_between(messages, i, j));
            } else {
                lemma_operation_begins(mid, last);
                if !outcome_between(front, i, n - 1) {
                    assert(mid.in_flight);
                }
                assert(outcome_between(front, i, n - 1));
                assert(outcome_between(messages, i, n - 1));
            }
        }
    }
}

} // verus!
