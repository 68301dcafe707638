//! What can go wrong, and the text shown for it.

use vstd::prelude::*;

verus! {

/// Why an activation ended without a live connection.
#[derive(Clone, Copy, Debug, PartialEq, Eq, Structural)]
pub enum ActivationFailure {
    /// The service took the connection down again. A wrong password is the
    /// usual cause.
    Rejected,
    /// The activation reported a state that makes no sense here, or could
    /// not be read at all: the object has probably been removed.
    Vanished,
}

/// A failure of one of the operations of this library.
#[derive(Debug, PartialEq, Eq)]
pub enum NmError {
    /// The bus or the service could not be reached. Carries what the
    /// transport said.
    ServiceUnavailable(String),
    /// A path that was handed in is not a well-formed object path.
    InvalidHandle,
    /// The service manages no wireless device.
    NoWirelessDevice,
    /// The access points of a device could not be listed. Carries what the
    /// transport said.
    ScanQueryFailed(String),
    ActivationFailed(ActivationFailure),
    /// The activation was still under way when the last poll had been made.
    ActivationTimedOut,
    /// No active wireless connection uses the device.
    NoActiveConnection,
    /// The connection was still there when the last poll had been made.
    DisconnectTimedOut,
}

/// The view of `NmError`: its content as mathematical values.
pub enum NmErrorView {
    ServiceUnavailable(Seq<char>),
    InvalidHandle,
    NoWirelessDevice,
    ScanQueryFailed(Seq<char>),
    ActivationFailed(ActivationFailure),
    ActivationTimedOut,
    NoActiveConnection,
    DisconnectTimedOut,
}

impl View for NmError {
    type V = NmErrorView;

    open spec fn view(&self) -> NmErrorView {
        match *self {
            NmError::ServiceUnavailable(detail) => NmErrorView::ServiceUnavailable(detail@),
            NmError::InvalidHandle => NmErrorView::InvalidHandle,
            NmError::NoWirelessDevice => NmErrorView::NoWirelessDevice,
            NmError::ScanQueryFailed(detail) => NmErrorView::ScanQueryFailed(detail@),
            NmError::ActivationFailed(why) => NmErrorView::ActivationFailed(why),
            NmError::ActivationTimedOut => NmErrorView::ActivationTimedOut,
            NmError::NoActiveConnection => NmErrorView::NoActiveConnection,
            NmError::DisconnectTimedOut => NmErrorView::DisconnectTimedOut,
        }
    }
}

impl NmErrorView {
    /// The text shown to the user for this failure.
    pub open spec fn message(self) -> Seq<char> {
        match self {
            NmErrorView::ServiceUnavailable(detail) => detail,
            NmErrorView::InvalidHandle => "Invalid object path"@,
            NmErrorView::NoWirelessDevice => "No WiFi devices found"@,
            NmErrorView::ScanQueryFailed(detail) => detail,
            NmErrorView::ActivationFailed(ActivationFailure::Rejected) =>
                "Connection failed (wrong password?)"@,
            NmErrorView::ActivationFailed(ActivationFailure::Vanished) => "Connection failed"@,
            NmErrorView::ActivationTimedOut => "Connection timed out"@,
            NmErrorView::NoActiveConnection => "No active WiFi connection found on this device"@,
            NmErrorView::DisconnectTimedOut => "Disconnect timed out"@,
        }
    }
}

impl Clone for NmError {
    fn clone(&self) -> (copy: Self)
        ensures
            copy == *self,
    {
        match self {
            NmError::ServiceUnavailable(detail) => NmError::ServiceUnavailable(detail.clone()),
            NmError::InvalidHandle => NmError::InvalidHandle,
            NmError::NoWirelessDevice => NmError::NoWirelessDevice,
            NmError::ScanQueryFailed(detail) => NmError::ScanQueryFailed(detail.clone()),
            NmError::ActivationFailed(why) => NmError::ActivationFailed(*why),
            NmError::ActivationTimedOut => NmError::ActivationTimedOut,
            NmError::NoActiveConnection => NmError::NoActiveConnection,
            NmError::DisconnectTimedOut => NmError::DisconnectTimedOut,
        }
    }
}

impl NmError {
    /// The text shown to the user for this failure.
    pub fn message(&self) -> (text: String)
        ensures
            text@ == self@.message(),
    {
        match self {
            NmError::ServiceUnavailable(detail) => detail.clone(),
            NmError::InvalidHandle => "Invalid object path".to_owned(),
            NmError::NoWirelessDevice => "No WiFi devices found".to_owned(),
            NmError::ScanQueryFailed(detail) => detail.clone(),
            NmError::ActivationFailed(ActivationFailure::Rejected) =>
                "Connection failed (wrong password?)".to_owned(),
            NmError::ActivationFailed(ActivationFailure::Vanished) =>
                "Connection failed".to_owned(),
            NmError::ActivationTimedOut => "Connection timed out".to_owned(),
            NmError::NoActiveConnection =>
                "No active WiFi connection found on this device".to_owned(),
            NmError::DisconnectTimedOut => "Disconnect timed out".to_owned(),
        }
    }
}

} // verus!
