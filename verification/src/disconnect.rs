//! Leaving a network, one step at a time.
//!
//! `disconnect` starts a flow and names the first thing to do; the driver
//! does it and reports the outcome to `DisconnectFlow::step`, which names the
//! next thing, until the action is `Finish`.

use vstd::prelude::*;
use crate::activation::POLL_INTERVAL_SECS;
use crate::error::{NmError, NmErrorView};
use crate::profile::wireless_type;
use crate::text::{contains_string, opt_view, string_views};

verus! {

/// How many times the active connections are listed after the deactivation
/// before giving up.
pub const DISCONNECT_POLLS: u32 = 10;

/// What was read of one active connection. A property that could not be read
/// is `None`.
#[derive(Debug)]
pub struct ActiveReading {
    pub path: String,
    /// What the transport said, where the connection could not be reached at
    /// all. Nothing was read of such a connection.
    pub unreachable: Option<String>,
    pub connection_type: Option<String>,
    /// Paths of the devices that the connection runs on.
    pub devices: Option<Vec<String>>,
}

/// The view of `ActiveReading`: its content as mathematical values.
pub struct ActiveReadingView {
    pub path: Seq<char>,
    pub unreachable: Option<Seq<char>>,
    pub connection_type: Option<Seq<char>>,
    pub devices: Option<Seq<Seq<char>>>,
}

impl View for ActiveReading {
    type V = ActiveReadingView;

    open spec fn view(&self) -> ActiveReadingView {
        ActiveReadingView {
            path: self.path@,
            unreachable: opt_view(self.unreachable),
            connection_type: opt_view(self.connection_type),
            devices: match self.devices {
                Some(list) => Some(string_views(list@)),
                None => None,
            },
        }
    }
}

/// The views of a list of active connections, in order.
pub open spec fn active_views(connections: Seq<ActiveReading>) -> Seq<ActiveReadingView> {
    connections.map_values(|c: ActiveReading| c@)
}

/// Whether an active connection is a wireless one that runs on the device.
/// What could not be read of it counts as not there.
pub open spec fn is_wifi_on(connection: ActiveReadingView, device_path: Seq<char>) -> bool {
    connection.unreachable is None && connection.connection_type == Some(wireless_type())
        && connection.devices is Some && connection.devices->0.contains(device_path)
}

/// Whether some active connection is a wireless one on the device.
pub open spec fn has_active_wifi(
    connections: Seq<ActiveReadingView>,
    device_path: Seq<char>,
) -> bool {
    exists|i: int| 0 <= i < connections.len() && is_wifi_on(#[trigger] connections[i], device_path)
}

/// Whether the search for a wireless connection on the device ends at this
/// connection: it is one, or it could not be reached.
pub open spec fn ends_search(connection: ActiveReadingView, device_path: Seq<char>) -> bool {
    connection.unreachable is Some || is_wifi_on(connection, device_path)
}

/// Position of the first connection at which the search ends, if there is
/// one.
pub open spec fn index_of_active(
    connections: Seq<ActiveReadingView>,
    device_path: Seq<char>,
) -> Option<int>
    decreases connections.len(),
{
    if connections.len() == 0 {
        None
    } else {
        match index_of_active(connections.drop_last(), device_path) {
            Some(i) => Some(i),
            None => if ends_search(connections.last(), device_path) {
                Some(connections.len() - 1)
            } else {
                None
            },
        }
    }
}

/// `index_of_active` finds the first connection at which the search ends,
/// and finds none only where every connection was reached and the device has
/// no wireless one.
pub proof fn lemma_index_of_active(connections: Seq<ActiveReadingView>, device_path: Seq<char>)
    ensures
        match index_of_active(connections, device_path) {
            Some(i) => 0 <= i < connections.len() && ends_search(connections[i], device_path)
                && forall|j: int|
                0 <= j < i ==> !ends_search(#[trigger] connections[j], device_path),
            None => !has_active_wifi(connections, device_path) && forall|j: int|
                0 <= j < connections.len() ==> !ends_search(
                    #[trigger] connections[j],
                    device_path,
                ),
        },
    decreases connections.len(),
{
    if connections.len() > 0 {
        let front = connections.drop_last();
        lemma_index_of_active(front, device_path);
        assert(forall|j: int| 0 <= j < front.len() ==> front[j] == connections[j]);
        if index_of_active(connections, device_path) is None {
            assert forall|j: int| 0 <= j < connections.len() implies !ends_search(
                #[trigger] connections[j],
                device_path,
            ) by {
                if j < front.len() {
                    assert(!ends_search(front[j], device_path));
                }
            }
        }
    }
}

/// The wireless connection on the device: the position of the first one.
/// There is none where no connection is a wireless one on the device, and
/// the search fails where a connection that could not be reached stands
/// before the first one that is.
pub open spec fn active_wifi(connections: Seq<ActiveReadingView>, device_path: Seq<char>) -> Result<
    Option<int>,
    Seq<char>,
> {
    match index_of_active(connections, device_path) {
        Some(i) => match connections[i].unreachable {
            Some(said) => Err(said),
            None => Ok(Some(i)),
        },
        None => Ok(None),
    }
}

/// Where the search has found a wireless connection on the device, the
/// device has one; where it has found none, the device has none.
pub proof fn lemma_active_wifi(connections: Seq<ActiveReadingView>, device_path: Seq<char>)
    ensures
        match active_wifi(connections, device_path) {
            Ok(Some(i)) => 0 <= i < connections.len() && is_wifi_on(connections[i], device_path)
                && has_active_wifi(connections, device_path),
            Ok(None) => !has_active_wifi(connections, device_path),
            Err(_) => true,
        },
{
    lemma_index_of_active(connections, device_path);
}

fn is_wifi_on_device(connection: &ActiveReading, device_path: &String) -> (yes: bool)
    ensures
        yes == is_wifi_on(connection@, device_path@),
{
    if connection.unreachable.is_some() {
        return false;
    }
    let wireless = "802-11-wireless".to_owned();
    let is_wireless = match &connection.connection_type {
        Some(t) => *t == wireless,
        None => false,
    };
    if !is_wireless {
        return false;
    }
    match &connection.devices {
        Some(list) => contains_string(list, device_path),
        None => false,
    }
}

/// The view of what the search for a wireless connection has found.
pub open spec fn search_view(found: Result<Option<usize>, NmError>) -> Result<
    Option<int>,
    NmErrorView,
> {
    match found {
        Ok(Some(i)) => Ok(Some(i as int)),
        Ok(None) => Ok(None),
        Err(e) => Err(e@),
    }
}

/// Finds the first wireless connection on the device.
fn find_active_wifi(connections: &Vec<ActiveReading>, device_path: &String) -> (found: Result<
    Option<usize>,
    NmError,
>)
    ensures
        found matches Ok(Some(i)) ==> i < connections.len(),
        search_view(found) == match active_wifi(active_views(connections@), device_path@) {
            Ok(at) => Ok(at),
            Err(said) => Err(NmErrorView::ServiceUnavailable(said)),
        },
{
    let mut i: usize = 0;
    while i < connections.len()
        invariant
            i <= connections.len(),
            forall|j: int|
                0 <= j < i ==> !ends_search(
                    #[trigger] active_views(connections@)[j],
                    device_path@,
                ),
        decreases connections.len() - i,
    {
        proof {
            lemma_index_of_active(active_views(connections@), device_path@);
        }
        match &connections[i].unreachable {
            Some(said) => {
                assert(ends_search(active_views(connections@)[i as int], device_path@));
                return Err(NmError::ServiceUnavailable(said.clone()));
            },
            None => {},
        }
        if is_wifi_on_device(&connections[i], device_path) {
            assert(ends_search(active_views(connections@)[i as int], device_path@));
            return Ok(Some(i));
        }
        assert(!ends_search(active_views(connections@)[i as int], device_path@));
        i += 1;
    }
    proof {
        lemma_index_of_active(active_views(connections@), device_path@);
    }
    Ok(None)
}

/// Whether the device has an active wireless connection. Fails with
/// `ServiceUnavailable` where a connection that could not be reached stands
/// before the first such one.
pub fn has_active_wifi_on_device(connections: &Vec<ActiveReading>, device_path: &str) -> (yes:
    Result<bool, NmError>)
    ensures
        match active_wifi(active_views(connections@), device_path@) {
            Ok(at) => yes == Ok::<bool, NmError>(at is Some),
            Err(said) => yes matches Err(e) && e@ == NmErrorView::ServiceUnavailable(said),
        },
        yes matches Ok(found) ==> found == has_active_wifi(
            active_views(connections@),
            device_path@,
        ),
{
    let path = device_path.to_owned();
    proof {
        lemma_active_wifi(active_views(connections@), device_path@);
    }
    match find_active_wifi(connections, &path) {
        Ok(found) => Ok(found.is_some()),
        Err(e) => Err(e),
    }
}

/// What the driver reports back to a flow.
#[derive(Debug)]
pub enum DisconnectEvent {
    /// The active connections, or what the transport said when they could
    /// not be listed.
    Active(Result<Vec<ActiveReading>, String>),
    /// The service took the connection down, or what the transport said when
    /// it refused.
    Deactivated(Result<(), String>),
}

/// The view of `DisconnectEvent`: its content as mathematical values.
pub enum DisconnectEventView {
    Active(Result<Seq<ActiveReadingView>, Seq<char>>),
    Deactivated(Result<(), Seq<char>>),
}

impl View for DisconnectEvent {
    type V = DisconnectEventView;

    open spec fn view(&self) -> DisconnectEventView {
        match *self {
            DisconnectEvent::Active(Ok(list)) => DisconnectEventView::Active(
                Ok(active_views(list@)),
            ),
            DisconnectEvent::Active(Err(said)) => DisconnectEventView::Active(Err(said@)),
            DisconnectEvent::Deactivated(Ok(_)) => DisconnectEventView::Deactivated(Ok(())),
            DisconnectEvent::Deactivated(Err(said)) => DisconnectEventView::Deactivated(
                Err(said@),
            ),
        }
    }
}

/// What the driver has to do next.
#[derive(Debug, PartialEq, Eq)]
pub enum DisconnectAction {
    /// List the active connections, after a pause of `after_secs` seconds;
    /// report `Active`.
    ListActive { after_secs: u64 },
    /// Ask the service to take the connection down; report `Deactivated`.
    Deactivate { connection_path: String },
    /// The flow has ended with this result.
    Finish(Result<(), NmError>),
    /// The event answers nothing that the flow is waiting for, and was
    /// dropped.
    Ignored,
}

/// The view of `DisconnectAction`: its content as mathematical values.
pub enum DisconnectActionView {
    ListActive { after_secs: u64 },
    Deactivate { connection_path: Seq<char> },
    Finish(Result<(), NmErrorView>),
    Ignored,
}

impl View for DisconnectAction {
    type V = DisconnectActionView;

    open spec fn view(&self) -> DisconnectActionView {
        match *self {
            DisconnectAction::ListActive { after_secs } => DisconnectActionView::ListActive {
                after_secs,
            },
            DisconnectAction::Deactivate { connection_path } => DisconnectActionView::Deactivate {
                connection_path: connection_path@,
            },
            DisconnectAction::Finish(Ok(_)) => DisconnectActionView::Finish(Ok(())),
            DisconnectAction::Finish(Err(e)) => DisconnectActionView::Finish(Err(e@)),
            DisconnectAction::Ignored => DisconnectActionView::Ignored,
        }
    }
}

/// How far a flow has come.
#[derive(Clone, Copy, Debug, PartialEq, Eq, Structural)]
pub enum DisconnectStage {
    /// Waiting for the active connections, to find the one to take down.
    Lookup,
    /// Waiting for the service to take the connection down.
    Deactivating,
    /// Waiting for the connection to be gone; `polls` listings have been
    /// looked at since the deactivation.
    Polling { polls: u32 },
    /// The flow has ended.
    Done,
}

/// One attempt to leave the network that a device is on.
#[derive(Debug)]
pub struct DisconnectFlow {
    device_path: String,
    stage: DisconnectStage,
}

/// The view of `DisconnectFlow`: its content as mathematical values.
pub struct DisconnectFlowView {
    pub device_path: Seq<char>,
    pub stage: DisconnectStage,
}

impl View for DisconnectFlow {
    type V = DisconnectFlowView;

    closed spec fn view(&self) -> DisconnectFlowView {
        DisconnectFlowView { device_path: self.device_path@, stage: self.stage }
    }
}

impl DisconnectFlowView {
    /// The same flow at another stage.
    pub open spec fn at(self, stage: DisconnectStage) -> DisconnectFlowView {
        DisconnectFlowView { device_path: self.device_path, stage }
    }

    /// The end of the flow with the given result.
    pub open spec fn finish(self, result: Result<(), NmErrorView>) -> (
        DisconnectFlowView,
        DisconnectActionView,
    ) {
        (self.at(DisconnectStage::Done), DisconnectActionView::Finish(result))
    }
}

/// How a flow starts: with the listing of the active connections.
pub open spec fn disconnect_start(device_path: Seq<char>) -> (
    DisconnectFlowView,
    DisconnectActionView,
) {
    (
        DisconnectFlowView { device_path, stage: DisconnectStage::Lookup },
        DisconnectActionView::ListActive { after_secs: 0 },
    )
}

/// The active connections have arrived for the first time: the first
/// wireless one on the device is taken down. Where there is none, the flow
/// fails; so it does where a connection that could not be reached stands
/// before the first such one.
pub open spec fn connection_looked_up(
    flow: DisconnectFlowView,
    connections: Seq<ActiveReadingView>,
) -> (DisconnectFlowView, DisconnectActionView) {
    match active_wifi(connections, flow.device_path) {
        Ok(Some(i)) => (
            flow.at(DisconnectStage::Deactivating),
            DisconnectActionView::Deactivate { connection_path: connections[i].path },
        ),
        Ok(None) => flow.finish(Err(NmErrorView::NoActiveConnection)),
        Err(said) => flow.finish(Err(NmErrorView::ServiceUnavailable(said))),
    }
}

/// The active connections have arrived after the deactivation: the flow ends
/// where the device has no wireless connection left, fails where this was
/// the last listing allowed, and has them listed again otherwise. It fails
/// too where a connection that could not be reached stands before the first
/// wireless one on the device.
pub open spec fn teardown_polled(
    flow: DisconnectFlowView,
    polls: u32,
    connections: Seq<ActiveReadingView>,
) -> (DisconnectFlowView, DisconnectActionView) {
    match active_wifi(connections, flow.device_path) {
        Err(said) => flow.finish(Err(NmErrorView::ServiceUnavailable(said))),
        Ok(None) => flow.finish(Ok(())),
        Ok(Some(_)) => if polls + 1 >= DISCONNECT_POLLS {
            flow.finish(Err(NmErrorView::DisconnectTimedOut))
        } else {
            (
                flow.at(DisconnectStage::Polling { polls: (polls + 1) as u32 }),
                DisconnectActionView::ListActive { after_secs: POLL_INTERVAL_SECS },
            )
        },
    }
}

/// The flow after an event, and what the driver has to do next.
pub open spec fn disconnect_step(flow: DisconnectFlowView, event: DisconnectEventView) -> (
    DisconnectFlowView,
    DisconnectActionView,
) {
    match (flow.stage, event) {
        (DisconnectStage::Lookup, DisconnectEventView::Active(Ok(connections))) =>
            connection_looked_up(flow, connections),
        (DisconnectStage::Deactivating, DisconnectEventView::Deactivated(Ok(_))) => (
            flow.at(DisconnectStage::Polling { polls: 0 }),
            DisconnectActionView::ListActive { after_secs: POLL_INTERVAL_SECS },
        ),
        (DisconnectStage::Polling { polls }, DisconnectEventView::Active(Ok(connections))) =>
            teardown_polled(flow, polls, connections),
        (DisconnectStage::Lookup, DisconnectEventView::Active(Err(said))) => flow.finish(
            Err(NmErrorView::ServiceUnavailable(said)),
        ),
        (DisconnectStage::Deactivating, DisconnectEventView::Deactivated(Err(said))) =>
            flow.finish(Err(NmErrorView::ServiceUnavailable(said))),
        (DisconnectStage::Polling { .. }, DisconnectEventView::Active(Err(said))) => flow.finish(
            Err(NmErrorView::ServiceUnavailable(said)),
        ),
        _ => (flow, DisconnectActionView::Ignored),
    }
}

/// Starts leaving the network that the device is on.
pub fn disconnect(device_path: &str) -> (start: (DisconnectFlow, DisconnectAction))
    ensures
        (start.0@, start.1@) == disconnect_start(device_path@),
{
    (
        DisconnectFlow { device_path: device_path.to_owned(), stage: DisconnectStage::Lookup },
        DisconnectAction::ListActive { after_secs: 0 },
    )
}

impl DisconnectFlow {
    /// Whether the flow has ended.
    pub fn is_done(&self) -> (done: bool)
        ensures
            done == (self@.stage is Done),
    {
        match self.stage {
            DisconnectStage::Done => true,
            _ => false,
        }
    }

    fn on_lookup(&self, connections: &Vec<ActiveReading>) -> (next: (
        DisconnectStage,
        DisconnectAction,
    ))
        ensures
            (self@.at(next.0), next.1@) == connection_looked_up(self@, active_views(connections@)),
    {
        match find_active_wifi(connections, &self.device_path) {
            Ok(Some(i)) => (
                DisconnectStage::Deactivating,
                DisconnectAction::Deactivate { connection_path: connections[i].path.clone() },
            ),
            Ok(None) => (
                DisconnectStage::Done,
                DisconnectAction::Finish(Err(NmError::NoActiveConnection)),
            ),
            Err(e) => (DisconnectStage::Done, DisconnectAction::Finish(Err(e))),
        }
    }

    fn on_poll(&self, polls: u32, connections: &Vec<ActiveReading>) -> (next: (
        DisconnectStage,
        DisconnectAction,
    ))
        ensures
            (self@.at(next.0), next.1@) == teardown_polled(
                self@,
                polls,
                active_views(connections@),
            ),
    {
        match has_active_wifi_on_device(connections, self.device_path.as_str()) {
            Err(e) => (DisconnectStage::Done, DisconnectAction::Finish(Err(e))),
            Ok(false) => (DisconnectStage::Done, DisconnectAction::Finish(Ok(()))),
            Ok(true) => {
                if polls >= DISCONNECT_POLLS - 1 {
                    (
                        DisconnectStage::Done,
                        DisconnectAction::Finish(Err(NmError::DisconnectTimedOut)),
                    )
                } else {
                    (
                        DisconnectStage::Polling { polls: polls + 1 },
                        DisconnectAction::ListActive { after_secs: POLL_INTERVAL_SECS },
                    )
                }
            },
        }
    }

    /// Takes the outcome of what the driver did last and says what it has to
    /// do next.
    pub fn step(&mut self, event: DisconnectEvent) -> (action: DisconnectAction)
        ensures
            (final(self)@, action@) == disconnect_step(old(self)@, event@),
    {
        let stage = self.stage;
        let (next, action) = match (stage, event) {
            (DisconnectStage::Lookup, DisconnectEvent::Active(Ok(connections))) => self.on_lookup(
                &connections,
            ),
            (DisconnectStage::Deactivating, DisconnectEvent::Deactivated(Ok(_))) => (
                DisconnectStage::Polling { polls: 0 },
                DisconnectAction::ListActive { after_secs: POLL_INTERVAL_SECS },
            ),
            (DisconnectStage::Polling { polls }, DisconnectEvent::Active(Ok(connections))) =>
                self.on_poll(polls, &connections),
            (DisconnectStage::Lookup, DisconnectEvent::Active(Err(said))) => (
                DisconnectStage::Done,
                DisconnectAction::Finish(Err(NmError::ServiceUnavailable(said))),
            ),
            (DisconnectStage::Deactivating, DisconnectEvent::Deactivated(Err(said))) => (
                DisconnectStage::Done,
                DisconnectAction::Finish(Err(NmError::ServiceUnavailable(said))),
            ),
            (DisconnectStage::Polling { .. }, DisconnectEvent::Active(Err(said))) => (
                DisconnectStage::Done,
                DisconnectAction::Finish(Err(NmError::ServiceUnavailable(said))),
            ),
            (same, _) => (same, DisconnectAction::Ignored),
        };
        self.stage = next;
        action
    }
}

} // verus!
