//! Joining a network, one step at a time.
//!
//! `connect` starts a flow and names the first thing to do; the driver does
//! it and reports the outcome to `ConnectFlow::step`, which names the next
//! thing, until the action is `Finish`.

use vstd::prelude::*;
use crate::activation::{activation_verdict, poll_verdict, PollVerdict, POLL_INTERVAL_SECS};
use crate::error::{NmError, NmErrorView};
use crate::network::{Network, NetworkView};
use crate::profile::{
    find_saved_connection, new_profile, profile_for, profile_views, saved_connection,
    section_views, SavedProfile, SavedProfileView, Section, SectionView,
};
use crate::text::{check_object_path, is_object_path};

verus! {

/// What the driver reports back to a flow.
#[derive(Debug)]
pub enum ConnectEvent {
    /// The saved profiles, or what the transport said when they could not be
    /// listed.
    Profiles(Result<Vec<SavedProfile>, String>),
    /// The path of the activation that the service started for a saved
    /// profile, or what the transport said when it refused.
    Activated(Result<String, String>),
    /// The paths of the activation and of the profile that the service
    /// created, in this order, or what the transport said when it refused.
    Created(Result<(String, String), String>),
    /// The state of the activation as read by one poll; `None` where it
    /// could not be read.
    State(Option<u32>),
    /// The deletion of the profile was tried.
    Deleted,
}

/// The view of `ConnectEvent`: its content as mathematical values.
pub enum ConnectEventView {
    Profiles(Result<Seq<SavedProfileView>, Seq<char>>),
    Activated(Result<Seq<char>, Seq<char>>),
    Created(Result<(Seq<char>, Seq<char>), Seq<char>>),
    State(Option<u32>),
    Deleted,
}

impl View for ConnectEvent {
    type V = ConnectEventView;

    open spec fn view(&self) -> ConnectEventView {
        match *self {
            ConnectEvent::Profiles(Ok(profiles)) => ConnectEventView::Profiles(
                Ok(profile_views(profiles@)),
            ),
            ConnectEvent::Profiles(Err(said)) => ConnectEventView::Profiles(Err(said@)),
            ConnectEvent::Activated(Ok(active)) => ConnectEventView::Activated(Ok(active@)),
            ConnectEvent::Activated(Err(said)) => ConnectEventView::Activated(Err(said@)),
            ConnectEvent::Created(Ok((active, profile))) => ConnectEventView::Created(
                Ok((active@, profile@)),
            ),
            ConnectEvent::Created(Err(said)) => ConnectEventView::Created(Err(said@)),
            ConnectEvent::State(reading) => ConnectEventView::State(reading),
            ConnectEvent::Deleted => ConnectEventView::Deleted,
        }
    }
}

/// What the driver has to do next.
#[derive(Debug, PartialEq, Eq)]
pub enum ConnectAction {
    /// List the saved profiles with their settings; report `Profiles`.
    ListProfiles,
    /// Activate the saved profile on the device, for the access point;
    /// report `Activated`.
    Activate { profile_path: String, device_path: String, ap_path: String },
    /// Have the service create a profile with these settings and activate
    /// it; report `Created`.
    AddAndActivate { settings: Vec<Section>, device_path: String, ap_path: String },
    /// Read the state of the activation, after a pause of `after_secs`
    /// seconds; report `State`.
    Poll { active_path: String, after_secs: u64 },
    /// Try to delete the profile, whatever comes of it; report `Deleted`.
    DeleteProfile { profile_path: String },
    /// The flow has ended with this result.
    Finish(Result<(), NmError>),
    /// The event answers nothing that the flow is waiting for, and was
    /// dropped.
    Ignored,
}

/// The view of `ConnectAction`: its content as mathematical values.
pub enum ConnectActionView {
    ListProfiles,
    Activate { profile_path: Seq<char>, device_path: Seq<char>, ap_path: Seq<char> },
    AddAndActivate { settings: Seq<SectionView>, device_path: Seq<char>, ap_path: Seq<char> },
    Poll { active_path: Seq<char>, after_secs: u64 },
    DeleteProfile { profile_path: Seq<char> },
    Finish(Result<(), NmErrorView>),
    Ignored,
}

impl View for ConnectAction {
    type V = ConnectActionView;

    open spec fn view(&self) -> ConnectActionView {
        match *self {
            ConnectAction::ListProfiles => ConnectActionView::ListProfiles,
            ConnectAction::Activate { profile_path, device_path, ap_path } =>
                ConnectActionView::Activate {
                profile_path: profile_path@,
                device_path: device_path@,
                ap_path: ap_path@,
            },
            ConnectAction::AddAndActivate { settings, device_path, ap_path } =>
                ConnectActionView::AddAndActivate {
                settings: section_views(settings@),
                device_path: device_path@,
                ap_path: ap_path@,
            },
            ConnectAction::Poll { active_path, after_secs } => ConnectActionView::Poll {
                active_path: active_path@,
                after_secs,
            },
            ConnectAction::DeleteProfile { profile_path } => ConnectActionView::DeleteProfile {
                profile_path: profile_path@,
            },
            ConnectAction::Finish(Ok(_)) => ConnectActionView::Finish(Ok(())),
            ConnectAction::Finish(Err(e)) => ConnectActionView::Finish(Err(e@)),
            ConnectAction::Ignored => ConnectActionView::Ignored,
        }
    }
}

/// How far a flow has come.
#[derive(Debug)]
#[allow(inconsistent_fields)]
pub enum ConnectStage {
    /// Waiting for the saved profiles.
    Lookup,
    /// Waiting for the service to start activating the saved profile.
    Activating { profile_path: String },
    /// Waiting for the service to create and start activating a new profile.
    Creating,
    /// Polling the activation; `polls` polls have been made.
    Polling { active_path: String, profile_path: String, polls: u32 },
    /// The activation has failed; waiting for the deletion of the profile.
    Cleaning { error: NmError },
    /// The flow has ended.
    Done,
}

/// The view of `ConnectStage`: its content as mathematical values.
#[allow(inconsistent_fields)]
pub enum ConnectStageView {
    Lookup,
    Activating { profile_path: Seq<char> },
    Creating,
    Polling { active_path: Seq<char>, profile_path: Seq<char>, polls: nat },
    Cleaning { error: NmErrorView },
    Done,
}

impl View for ConnectStage {
    type V = ConnectStageView;

    open spec fn view(&self) -> ConnectStageView {
        match *self {
            ConnectStage::Lookup => ConnectStageView::Lookup,
            ConnectStage::Activating { profile_path } => ConnectStageView::Activating {
                profile_path: profile_path@,
            },
            ConnectStage::Creating => ConnectStageView::Creating,
            ConnectStage::Polling { active_path, profile_path, polls } =>
                ConnectStageView::Polling {
                active_path: active_path@,
                profile_path: profile_path@,
                polls: polls as nat,
            },
            ConnectStage::Cleaning { error } => ConnectStageView::Cleaning { error: error@ },
            ConnectStage::Done => ConnectStageView::Done,
        }
    }
}

/// One attempt to join a network.
#[derive(Debug)]
pub struct ConnectFlow {
    network: Network,
    password: String,
    stage: ConnectStage,
}

/// The view of `ConnectFlow`: its content as mathematical values.
pub struct ConnectFlowView {
    pub network: NetworkView,
    pub password: Seq<char>,
    pub stage: ConnectStageView,
}

impl View for ConnectFlow {
    type V = ConnectFlowView;

    closed spec fn view(&self) -> ConnectFlowView {
        ConnectFlowView { network: self.network@, password: self.password@, stage: self.stage@ }
    }
}

impl ConnectFlowView {
    /// The same flow at another stage.
    pub open spec fn at(self, stage: ConnectStageView) -> ConnectFlowView {
        ConnectFlowView { network: self.network, password: self.password, stage }
    }

    /// The end of the flow with the given result.
    pub open spec fn finish(self, result: Result<(), NmErrorView>) -> (
        ConnectFlowView,
        ConnectActionView,
    ) {
        (self.at(ConnectStageView::Done), ConnectActionView::Finish(result))
    }

    /// The first poll of an activation that the service has started.
    pub open spec fn start_polling(self, active_path: Seq<char>, profile_path: Seq<char>) -> (
        ConnectFlowView,
        ConnectActionView,
    ) {
        (
            self.at(ConnectStageView::Polling { active_path, profile_path, polls: 0 }),
            ConnectActionView::Poll { active_path, after_secs: 0 },
        )
    }
}

/// How a flow starts: with the listing of the saved profiles if the paths of
/// the network's device and access point are well formed, else with its end.
pub open spec fn connect_start(network: NetworkView, password: Seq<char>) -> (
    ConnectFlowView,
    ConnectActionView,
) {
    let flow = ConnectFlowView { network, password, stage: ConnectStageView::Lookup };
    if is_object_path(network.device_path) && is_object_path(network.ap_path) {
        (flow, ConnectActionView::ListProfiles)
    } else {
        flow.finish(Err(NmErrorView::InvalidHandle))
    }
}

/// The saved profiles have arrived: the first one for the network's SSID is
/// activated; where there is none, a new profile is made. The flow fails
/// where a profile that could not be reached stands before the first one for
/// the SSID.
pub open spec fn profiles_listed(flow: ConnectFlowView, profiles: Seq<SavedProfileView>) -> (
    ConnectFlowView,
    ConnectActionView,
) {
    match saved_connection(profiles, flow.network.ssid) {
        Err(said) => flow.finish(Err(NmErrorView::ServiceUnavailable(said))),
        Ok(Some(profile_path)) => if is_object_path(profile_path) {
            (
                flow.at(ConnectStageView::Activating { profile_path }),
                ConnectActionView::Activate {
                    profile_path,
                    device_path: flow.network.device_path,
                    ap_path: flow.network.ap_path,
                },
            )
        } else {
            flow.finish(Err(NmErrorView::InvalidHandle))
        },
        Ok(None) => (
            flow.at(ConnectStageView::Creating),
            ConnectActionView::AddAndActivate {
                settings: profile_for(flow.network, flow.password),
                device_path: flow.network.device_path,
                ap_path: flow.network.ap_path,
            },
        ),
    }
}

/// One poll has been made: the flow ends where the connection is up, polls
/// again after the poll interval where it is still coming up, and has the profile deleted where the
/// activation has failed or taken too long.
pub open spec fn polled(
    flow: ConnectFlowView,
    active_path: Seq<char>,
    profile_path: Seq<char>,
    polls: nat,
    reading: Option<u32>,
) -> (ConnectFlowView, ConnectActionView) {
    match poll_verdict(polls, reading) {
        PollVerdict::Activated => flow.finish(Ok(())),
        PollVerdict::Again => (
            flow.at(ConnectStageView::Polling { active_path, profile_path, polls: polls + 1 }),
            ConnectActionView::Poll { active_path, after_secs: POLL_INTERVAL_SECS },
        ),
        PollVerdict::Failed(why) => (
            flow.at(ConnectStageView::Cleaning { error: NmErrorView::ActivationFailed(why) }),
            ConnectActionView::DeleteProfile { profile_path },
        ),
        PollVerdict::TimedOut => (
            flow.at(ConnectStageView::Cleaning { error: NmErrorView::ActivationTimedOut }),
            ConnectActionView::DeleteProfile { profile_path },
        ),
    }
}

/// The flow after an event, and what the driver has to do next.
pub open spec fn connect_step(flow: ConnectFlowView, event: ConnectEventView) -> (
    ConnectFlowView,
    ConnectActionView,
) {
    match (flow.stage, event) {
        (ConnectStageView::Lookup, ConnectEventView::Profiles(Ok(profiles))) => profiles_listed(
            flow,
            profiles,
        ),
        (ConnectStageView::Lookup, ConnectEventView::Profiles(Err(said))) => flow.finish(
            Err(NmErrorView::ServiceUnavailable(said)),
        ),
        (
            ConnectStageView::Activating { profile_path },
            ConnectEventView::Activated(Ok(active_path)),
        ) => flow.start_polling(active_path, profile_path),
        (ConnectStageView::Activating { .. }, ConnectEventView::Activated(Err(said))) =>
            flow.finish(Err(NmErrorView::ServiceUnavailable(said))),
        (ConnectStageView::Creating, ConnectEventView::Created(Ok((active_path, profile_path)))) =>
            flow.start_polling(active_path, profile_path),
        (ConnectStageView::Creating, ConnectEventView::Created(Err(said))) => flow.finish(
            Err(NmErrorView::ServiceUnavailable(said)),
        ),
        (
            ConnectStageView::Polling { active_path, profile_path, polls },
            ConnectEventView::State(reading),
        ) => polled(flow, active_path, profile_path, polls, reading),
        (ConnectStageView::Cleaning { error }, ConnectEventView::Deleted) => flow.finish(
            Err(error),
        ),
        _ => (flow, ConnectActionView::Ignored),
    }
}

/// Starts joining a network with the given password.
pub fn connect(network: Network, password: String) -> (start: (ConnectFlow, ConnectAction))
    ensures
        (start.0@, start.1@) == connect_start(network@, password@),
{
    let valid = check_object_path(network.device_path.as_str()).is_ok() && check_object_path(
        network.ap_path.as_str(),
    ).is_ok();
    if valid {
        (
            ConnectFlow { network, password, stage: ConnectStage::Lookup },
            ConnectAction::ListProfiles,
        )
    } else {
        (
            ConnectFlow { network, password, stage: ConnectStage::Done },
            ConnectAction::Finish(Err(NmError::InvalidHandle)),
        )
    }
}

impl ConnectFlow {
    /// Whether the flow has ended.
    pub fn is_done(&self) -> (done: bool)
        ensures
            done == (self@.stage is Done),
    {
        match &self.stage {
            ConnectStage::Done => true,
            _ => false,
        }
    }

    fn on_profiles(&self, profiles: &Vec<SavedProfile>) -> (next: (ConnectStage, ConnectAction))
        ensures
            (self@.at(next.0@), next.1@) == profiles_listed(self@, profile_views(profiles@)),
    {
        match find_saved_connection(profiles, &self.network.ssid) {
            Err(e) => (ConnectStage::Done, ConnectAction::Finish(Err(e))),
            Ok(Some(profile_path)) => {
                if check_object_path(profile_path.as_str()).is_ok() {
                    let action = ConnectAction::Activate {
                        profile_path: profile_path.clone(),
                        device_path: self.network.device_path.clone(),
                        ap_path: self.network.ap_path.clone(),
                    };
                    (ConnectStage::Activating { profile_path }, action)
                } else {
                    (ConnectStage::Done, ConnectAction::Finish(Err(NmError::InvalidHandle)))
                }
            },
            Ok(None) => {
                let action = ConnectAction::AddAndActivate {
                    settings: new_profile(&self.network, self.password.as_str()),
                    device_path: self.network.device_path.clone(),
                    ap_path: self.network.ap_path.clone(),
                };
                (ConnectStage::Creating, action)
            },
        }
    }

    fn on_poll(
        &self,
        active_path: String,
        profile_path: String,
        polls: u32,
        reading: Option<u32>,
    ) -> (next: (ConnectStage, ConnectAction))
        ensures
            (self@.at(next.0@), next.1@) == polled(
                self@,
                active_path@,
                profile_path@,
                polls as nat,
                reading,
            ),
    {
        match activation_verdict(polls, reading) {
            PollVerdict::Activated => (ConnectStage::Done, ConnectAction::Finish(Ok(()))),
            PollVerdict::Again => {
                let action = ConnectAction::Poll {
                    active_path: active_path.clone(),
                    after_secs: POLL_INTERVAL_SECS,
                };
                (ConnectStage::Polling { active_path, profile_path, polls: polls + 1 }, action)
            },
            PollVerdict::Failed(why) => (
                ConnectStage::Cleaning { error: NmError::ActivationFailed(why) },
                ConnectAction::DeleteProfile { profile_path },
            ),
            PollVerdict::TimedOut => (
                ConnectStage::Cleaning { error: NmError::ActivationTimedOut },
                ConnectAction::DeleteProfile { profile_path },
            ),
        }
    }

    /// Takes the outcome of what the driver did last and says what it has to
    /// do next.
    pub fn step(&mut self, event: ConnectEvent) -> (action: ConnectAction)
        ensures
            (final(self)@, action@) == connect_step(old(self)@, event@),
    {
        let mut stage = ConnectStage::Done;
        core::mem::swap(&mut self.stage, &mut stage);
        let (next, action) = match (stage, event) {
            (ConnectStage::Lookup, ConnectEvent::Profiles(Ok(profiles))) => self.on_profiles(
                &profiles,
            ),
            (ConnectStage::Lookup, ConnectEvent::Profiles(Err(said))) => (
                ConnectStage::Done,
                ConnectAction::Finish(Err(NmError::ServiceUnavailable(said))),
            ),
            (
                ConnectStage::Activating { profile_path },
                ConnectEvent::Activated(Ok(active_path)),
            ) => {
                let action = ConnectAction::Poll {
                    active_path: active_path.clone(),
                    after_secs: 0,
                };
                (ConnectStage::Polling { active_path, profile_path, polls: 0 }, action)
            },
            (ConnectStage::Activating { .. }, ConnectEvent::Activated(Err(said))) => (
                ConnectStage::Done,
                ConnectAction::Finish(Err(NmError::ServiceUnavailable(said))),
            ),
            (ConnectStage::Creating, ConnectEvent::Created(Ok((active_path, profile_path)))) => {
                let action = ConnectAction::Poll {
                    active_path: active_path.clone(),
                    after_secs: 0,
                };
                (ConnectStage::Polling { active_path, profile_path, polls: 0 }, action)
            },
            (ConnectStage::Creating, ConnectEvent::Created(Err(said))) => (
                ConnectStage::Done,
                ConnectAction::Finish(Err(NmError::ServiceUnavailable(said))),
            ),
            (
                ConnectStage::Polling { active_path, profile_path, polls },
                ConnectEvent::State(reading),
            ) => self.on_poll(active_path, profile_path, polls, reading),
            (ConnectStage::Cleaning { error }, ConnectEvent::Deleted) => (
                ConnectStage::Done,
                ConnectAction::Finish(Err(error)),
            ),
            (same, _) => (same, ConnectAction::Ignored),
        };
        self.stage = next;
        action
    }
}

} // verus!
