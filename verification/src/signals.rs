//! The change signals of the service, and the messages they become.

use vstd::prelude::*;
use crate::app::{Message, MessageView};

verus! {

/// A signal about the networks around one device.
#[derive(Clone, Copy, Debug, PartialEq, Eq, Structural)]
pub enum DeviceSignal {
    AccessPointAdded,
    AccessPointRemoved,
    ActiveConnectionsChanged,
}

/// A signal about the service as a whole.
#[derive(Clone, Copy, Debug, PartialEq, Eq, Structural)]
pub enum ServiceSignal {
    DeviceAdded,
    DeviceRemoved,
    WirelessEnabledChanged,
}

/// The message for a signal about one device: whatever changed, the
/// networks have to be scanned again.
pub fn device_signal_message(signal: DeviceSignal) -> (message: Message)
    ensures
        message@ == MessageView::NetworkChanged,
{
    match signal {
        DeviceSignal::AccessPointAdded => Message::NetworkChanged,
        DeviceSignal::AccessPointRemoved => Message::NetworkChanged,
        DeviceSignal::ActiveConnectionsChanged => Message::NetworkChanged,
    }
}

/// The message that a signal about the service stands for.
pub open spec fn service_message(signal: ServiceSignal) -> MessageView {
    match signal {
        ServiceSignal::DeviceAdded => MessageView::DevicesChanged,
        ServiceSignal::DeviceRemoved => MessageView::DevicesChanged,
        ServiceSignal::WirelessEnabledChanged => MessageView::WifiEnabledChanged,
    }
}

/// The message for a signal about the service: a device that came or went
/// changes the device list, the radio switch changes the radio state.
pub fn service_signal_message(signal: ServiceSignal) -> (message: Message)
    ensures
        message@ == service_message(signal),
{
    match signal {
        ServiceSignal::DeviceAdded => Message::DevicesChanged,
        ServiceSignal::DeviceRemoved => Message::DevicesChanged,
        ServiceSignal::WirelessEnabledChanged => Message::WifiEnabledChanged,
    }
}

} // verus!
