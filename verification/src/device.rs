//! Wireless devices and the filter that picks them out of all managed devices.

use vstd::prelude::*;
use vstd::std_specs::cmp::PartialEqSpecImpl;
use crate::error::{NmError, NmErrorView};

verus! {

/// Device-type code that NetworkManager reports for Wi-Fi devices.
pub const DEVICE_TYPE_WIFI: u32 = 2;

/// A wireless device: the object path the service knows it by, and the name
/// of its network interface.
#[derive(Debug)]
pub struct WifiDevice {
    pub path: String,
    pub interface: String,
}

/// The view of `WifiDevice`: its content as mathematical values.
pub struct WifiDeviceView {
    pub path: Seq<char>,
    pub interface: Seq<char>,
}

impl View for WifiDevice {
    type V = WifiDeviceView;

    open spec fn view(&self) -> WifiDeviceView {
        WifiDeviceView { path: self.path@, interface: self.interface@ }
    }
}

impl Clone for WifiDevice {
    fn clone(&self) -> (copy: Self)
        ensures
            copy == *self,
    {
        WifiDevice { path: self.path.clone(), interface: self.interface.clone() }
    }
}

impl PartialEq for WifiDevice {
    /// Two devices are the same device when their paths agree.
    fn eq(&self, other: &Self) -> (same: bool) {
        self.path == other.path
    }
}

impl PartialEqSpecImpl for WifiDevice {
    open spec fn obeys_eq_spec() -> bool {
        true
    }

    open spec fn eq_spec(&self, other: &Self) -> bool {
        self.path@ == other.path@
    }
}

impl WifiDevice {
    /// The text shown for the device: its interface name.
    pub fn label(&self) -> (text: String)
        ensures
            text@ == self.interface@,
    {
        self.interface.clone()
    }
}

/// The views of a list of devices, in order.
pub open spec fn device_views(devices: Seq<WifiDevice>) -> Seq<WifiDeviceView> {
    devices.map_values(|d: WifiDevice| d@)
}

/// Position of the first device with the given path, if there is one.
pub open spec fn index_of_path(devices: Seq<WifiDeviceView>, path: Seq<char>) -> Option<int>
    decreases devices.len(),
{
    if devices.len() == 0 {
        None
    } else {
        match index_of_path(devices.drop_last(), path) {
            Some(i) => Some(i),
            None => if devices.last().path == path {
                Some(devices.len() - 1)
            } else {
                None
            },
        }
    }
}

/// `index_of_path` finds the first match, and finds none only where there is
/// none.
pub proof fn lemma_index_of_path(devices: Seq<WifiDeviceView>, path: Seq<char>)
    ensures
        match index_of_path(devices, path) {
            Some(i) => 0 <= i < devices.len() && devices[i].path == path && forall|j: int|
                0 <= j < i ==> devices[j].path != path,
            None => forall|j: int| 0 <= j < devices.len() ==> devices[j].path != path,
        },
    decreases devices.len(),
{
    if devices.len() > 0 {
        let front = devices.drop_last();
        lemma_index_of_path(front, path);
        assert(forall|j: int| 0 <= j < front.len() ==> front[j] == devices[j]);
    }
}

/// Finds the first device with the given path.
pub fn find_device(devices: &Vec<WifiDevice>, path: &String) -> (found: Option<usize>)
    ensures
        match found {
            Some(i) => i < devices.len() && index_of_path(device_views(devices@), path@) == Some(
                i as int,
            ),
            None => index_of_path(device_views(devices@), path@) is None,
        },
{
    let mut i: usize = 0;
    while i < devices.len()
        invariant
            i <= devices.len(),
            forall|j: int| 0 <= j < i ==> device_views(devices@)[j].path != path@,
        decreases devices.len() - i,
    {
        if devices[i].path == *path {
            proof {
                let views = device_views(devices@);
                lemma_index_of_path(views, path@);
                assert(views[i as int].path == path@);
            }
            return Some(i);
        }
        i += 1;
    }
    proof {
        lemma_index_of_path(device_views(devices@), path@);
    }
    None
}

/// Whatever path is looked for, `index_of_path` stays inside the list.
pub proof fn lemma_index_of_path_bounds(devices: Seq<WifiDeviceView>, path: Option<Seq<char>>)
    ensures
        path matches Some(p) ==> (index_of_path(devices, p) matches Some(i) ==> 0 <= i
            < devices.len()),
{
    if let Some(p) = path {
        lemma_index_of_path(devices, p);
    }
}

/// Copies a device list.
pub fn clone_devices(devices: &Vec<WifiDevice>) -> (copy: Vec<WifiDevice>)
    ensures
        copy@ == devices@,
{
    let mut copy: Vec<WifiDevice> = Vec::new();
    let mut i: usize = 0;
    while i < devices.len()
        invariant
            i <= devices.len(),
            copy@ == devices@.take(i as int),
        decreases devices.len() - i,
    {
        copy.push(devices[i].clone());
        proof {
            assert(copy@ =~= devices@.take(i + 1));
        }
        i += 1;
    }
    proof {
        assert(devices@.take(devices.len() as int) =~= devices@);
    }
    copy
}

/// What was read of one managed device. A property that could not be read
/// is `None`.
#[derive(Debug)]
pub struct DeviceReading {
    pub path: String,
    pub device_type: Option<u32>,
    pub interface: Option<String>,
}

/// The view of `DeviceReading`: its content as mathematical values.
pub struct DeviceReadingView {
    pub path: Seq<char>,
    pub device_type: Option<u32>,
    pub interface: Option<Seq<char>>,
}

impl View for DeviceReading {
    type V = DeviceReadingView;

    open spec fn view(&self) -> DeviceReadingView {
        DeviceReadingView {
            path: self.path@,
            device_type: self.device_type,
            interface: match self.interface {
                Some(name) => Some(name@),
                None => None,
            },
        }
    }
}

/// The views of a list of device readings, in order.
pub open spec fn device_reading_views(readings: Seq<DeviceReading>) -> Seq<DeviceReadingView> {
    readings.map_values(|r: DeviceReading| r@)
}

/// A device is wireless when its type was read and is the Wi-Fi code.
pub open spec fn is_wifi_type(device_type: Option<u32>) -> bool {
    device_type == Some(DEVICE_TYPE_WIFI)
}

/// The wireless device that a reading stands for. An interface name that
/// could not be read is empty.
pub open spec fn wifi_device_of(reading: DeviceReadingView) -> WifiDeviceView {
    WifiDeviceView {
        path: reading.path,
        interface: match reading.interface {
            Some(name) => name,
            None => Seq::empty(),
        },
    }
}

/// The wireless devices among the managed ones, in the order of the
/// readings.
pub open spec fn wifi_devices(readings: Seq<DeviceReadingView>) -> Seq<WifiDeviceView>
    decreases readings.len(),
{
    if readings.len() == 0 {
        Seq::empty()
    } else {
        let front = wifi_devices(readings.drop_last());
        if is_wifi_type(readings.last().device_type) {
            front.push(wifi_device_of(readings.last()))
        } else {
            front
        }
    }
}

/// Whether the device is that of some reading of the Wi-Fi type.
pub open spec fn is_wifi_device_among(
    readings: Seq<DeviceReadingView>,
    device: WifiDeviceView,
) -> bool {
    exists|i: int|
        0 <= i < readings.len() && is_wifi_type((#[trigger] readings[i]).device_type) && device
            == wifi_device_of(readings[i])
}

/// The list holds the devices of the wireless readings and no others: every
/// entry is the device of a reading of the Wi-Fi type, and every such reading
/// has its device in the list.
pub proof fn lemma_wifi_devices(readings: Seq<DeviceReadingView>)
    ensures
        forall|k: int|
            0 <= k < wifi_devices(readings).len() ==> is_wifi_device_among(
                readings,
                #[trigger] wifi_devices(readings)[k],
            ),
        forall|i: int|
            0 <= i < readings.len() && is_wifi_type((#[trigger] readings[i]).device_type)
                ==> wifi_devices(readings).contains(wifi_device_of(readings[i])),
    decreases readings.len(),
{
    if readings.len() > 0 {
        let front_in = readings.drop_last();
        let front = wifi_devices(front_in);
        let out = wifi_devices(readings);
        let n = readings.len() - 1;
        lemma_wifi_devices(front_in);
        assert(forall|j: int| 0 <= j < n ==> front_in[j] == readings[j]);
        assert forall|k: int| 0 <= k < out.len() implies is_wifi_device_among(
            readings,
            #[trigger] out[k],
        ) by {
            if k < front.len() {
                assert(out[k] == front[k]);
                assert(is_wifi_device_among(front_in, front[k]));
                let i = choose|i: int|
                    0 <= i < front_in.len() && is_wifi_type((#[trigger] front_in[i]).device_type)
                        && front[k] == wifi_device_of(front_in[i]);
                assert(readings[i] == front_in[i]);
            } else {
                assert(is_wifi_type(readings[n].device_type));
                assert(out[k] == wifi_device_of(readings[n]));
            }
        }
        assert forall|i: int|
            0 <= i < readings.len() && is_wifi_type(
                (#[trigger] readings[i]).device_type,
            ) implies out.contains(wifi_device_of(readings[i])) by {
            let device = wifi_device_of(readings[i]);
            if i == n {
                assert(out[out.len() - 1] == device);
            } else {
                assert(is_wifi_type(front_in[i].device_type));
                assert(front.contains(device));
                let k = choose|k: int| 0 <= k < front.len() && front[k] == device;
                assert(out[k] == device);
            }
        }
    }
}

/// Whether a device type that was read, or not, is that of a wireless
/// device.
pub fn is_wifi_device(device_type: Option<u32>) -> (yes: bool)
    ensures
        yes == is_wifi_type(device_type),
{
    match device_type {
        Some(code) => code == DEVICE_TYPE_WIFI,
        None => false,
    }
}

/// The view of the outcome of listing the managed devices.
pub open spec fn device_listing_view(listing: Result<Vec<DeviceReading>, String>) -> Result<
    Seq<DeviceReadingView>,
    Seq<char>,
> {
    match listing {
        Ok(readings) => Ok(device_reading_views(readings@)),
        Err(said) => Err(said@),
    }
}

/// Picks the wireless devices out of all managed devices. `listing` holds
/// what was read of the managed devices, or what the transport said when
/// they could not be listed.
///
/// Fails with `ServiceUnavailable` where the devices could not be listed, and
/// with `NoWirelessDevice` where none of them is wireless.
pub fn list_wifi_devices(listing: &Result<Vec<DeviceReading>, String>) -> (result: Result<
    Vec<WifiDevice>,
    NmError,
>)
    ensures
        match device_listing_view(*listing) {
            Ok(readings) => match result {
                Ok(devices) => devices.len() > 0 && device_views(devices@) == wifi_devices(
                    readings,
                ),
                Err(e) => e@ == NmErrorView::NoWirelessDevice && wifi_devices(readings).len()
                    == 0,
            },
            Err(said) => result matches Err(e) && e@ == NmErrorView::ServiceUnavailable(said),
        },
{
    match listing {
        Ok(readings) => wifi_devices_among(readings),
        Err(said) => Err(NmError::ServiceUnavailable(said.clone())),
    }
}

fn wifi_devices_among(readings: &Vec<DeviceReading>) -> (result: Result<Vec<WifiDevice>, NmError>)
    ensures
        match result {
            Ok(devices) => devices.len() > 0 && device_views(devices@) == wifi_devices(
                device_reading_views(readings@),
            ),
            Err(e) => e@ == NmErrorView::NoWirelessDevice && wifi_devices(
                device_reading_views(readings@),
            ).len() == 0,
        },
{
    let mut devices: Vec<WifiDevice> = Vec::new();
    let mut i: usize = 0;
    let ghost all = device_reading_views(readings@);
    proof {
        assert(device_views(devices@) =~= wifi_devices(all.take(0)));
    }
    while i < readings.len()
        invariant
            i <= readings.len(),
            all == device_reading_views(readings@),
            device_views(devices@) == wifi_devices(all.take(i as int)),
        decreases readings.len() - i,
    {
        let ghost before = device_views(devices@);
        proof {
            let next = all.take(i + 1);
            assert(next.drop_last() =~= all.take(i as int));
            assert(next.last() == readings[i as int]@);
        }
        if is_wifi_device(readings[i].device_type) {
            let interface = match &readings[i].interface {
                Some(name) => name.clone(),
                None => String::new(),
            };
            let device = WifiDevice { path: readings[i].path.clone(), interface };
            let ghost d = device@;
            devices.push(device);
            proof {
                assert(d == wifi_device_of(readings[i as int]@));
                assert(device_views(devices@) =~= before.push(d));
            }
        }
        i += 1;
    }
    proof {
        assert(all.take(readings.len() as int) =~= all);
        assert(device_views(devices@).len() == devices.len());
    }
    if devices.len() == 0 {
        Err(NmError::NoWirelessDevice)
    } else {
        Ok(devices)
    }
}

} // verus!
