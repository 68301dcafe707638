//! What holds of whole runs of the connect and disconnect flows.

use vstd::prelude::*;
use crate::activation::{
    poll_verdict, PollVerdict, ACTIVATION_POLLS, ACTIVE_STATE_ACTIVATING, POLL_INTERVAL_SECS,
};
use crate::connect::{
    connect_start, connect_step, polled, ConnectActionView, ConnectEventView, ConnectFlowView,
    ConnectStageView,
};
use crate::disconnect::{
    active_wifi, disconnect_start, disconnect_step, lemma_active_wifi, teardown_polled,
    ActiveReadingView, DisconnectActionView, DisconnectEventView, DisconnectFlowView,
    DisconnectStage, DISCONNECT_POLLS,
};
use crate::error::NmErrorView;
use crate::network::NetworkView;

verus! {

/// The flow after a sequence of events, and the actions it asked for, one
/// for each event.
pub open spec fn connect_run(flow: ConnectFlowView, events: Seq<ConnectEventView>) -> (
    ConnectFlowView,
    Seq<ConnectActionView>,
)
    decreases events.len(),
{
    if events.len() == 0 {
        (flow, Seq::empty())
    } else {
        let (mid, asked) = connect_run(flow, events.drop_last());
        let (next, action) = connect_step(mid, events.last());
        (next, asked.push(action))
    }
}

/// The events of a sequence of polls.
pub open spec fn state_events(readings: Seq<Option<u32>>) -> Seq<ConnectEventView> {
    readings.map_values(|r: Option<u32>| ConnectEventView::State(r))
}

/// An activation is polled for as long as it reads as under way. With every
/// reading but the last one saying so, and no more readings than polls are
/// allowed, each of them is answered by another poll after a pause, and the
/// last one decides: on the `n`-th reading the flow does what `polled` says
/// for `n - 1` polls made before.
pub proof fn lemma_activation_polling(flow: ConnectFlowView, readings: Seq<Option<u32>>)
    requires
        flow.stage is Polling,
        flow.stage->polls == 0,
        1 <= readings.len() <= ACTIVATION_POLLS,
        forall|i: int|
            0 <= i < readings.len() - 1 ==> readings[i] == Some(ACTIVE_STATE_ACTIVATING),
    ensures
        ({
            let (end, asked) = connect_run(flow, state_events(readings));
            let active_path = flow.stage->active_path;
            let profile_path = flow.stage->Polling_profile_path;
            let n = readings.len() as int;
            &&& asked.len() == n
            &&& forall|i: int|
                0 <= i < n - 1 ==> asked[i] == (ConnectActionView::Poll {
                    active_path,
                    after_secs: POLL_INTERVAL_SECS,
                })
            &&& (end, asked[n - 1]) == polled(
                flow,
                active_path,
                profile_path,
                (n - 1) as nat,
                readings[n - 1],
            )
        }),
    decreases readings.len(),
{
    let n = readings.len() as int;
    let events = state_events(readings);
    let active_path = flow.stage->active_path;
    let profile_path = flow.stage->Polling_profile_path;
    assert(events.last() == ConnectEventView::State(readings[n - 1]));
    if n == 1 {
        assert(events.drop_last() =~= Seq::empty());
        assert(connect_run(flow, events.drop_last()) == (flow, Seq::<ConnectActionView>::empty()));
    } else {
        let front = readings.drop_last();
        assert(events.drop_last() =~= state_events(front));
        lemma_activation_polling(flow, front);
        let (mid, asked) = connect_run(flow, state_events(front));
        assert(front[n - 2] == readings[n - 2]);
        assert(poll_verdict((n - 2) as nat, front[n - 2]) == PollVerdict::Again);
        assert(mid.stage == ConnectStageView::Polling {
            active_path,
            profile_path,
            polls: (n - 1) as nat,
        });
        let (next, action) = connect_step(mid, events.last());
        assert(connect_run(flow, events) == (next, asked.push(action)));
    }
}

/// An activation that fails or takes too long has the profile it used
/// deleted first, and the flow then ends with the failure.
pub proof fn lemma_failed_activation_deletes_profile(flow: ConnectFlowView, reading: Option<u32>)
    requires
        flow.stage is Polling,
        poll_verdict(flow.stage->polls, reading) is Failed || poll_verdict(
            flow.stage->polls,
            reading,
        ) is TimedOut,
    ensures
        ({
            let (cleaning, first) = connect_step(flow, ConnectEventView::State(reading));
            let (end, second) = connect_step(cleaning, ConnectEventView::Deleted);
            let error = match poll_verdict(flow.stage->polls, reading) {
                PollVerdict::Failed(why) => NmErrorView::ActivationFailed(why),
                _ => NmErrorView::ActivationTimedOut,
            };
            &&& first == (ConnectActionView::DeleteProfile {
                profile_path: flow.stage->Polling_profile_path,
            })
            &&& second == ConnectActionView::Finish(Err(error))
            &&& end.stage is Done
        }),
{
}

/// How many of the actions ask the service to activate a profile, saved or
/// new.
pub open spec fn activations(asked: Seq<ConnectActionView>) -> nat
    decreases asked.len(),
{
    if asked.len() == 0 {
        0
    } else {
        activations(asked.drop_last()) + if asked.last() is Activate
            || asked.last() is AddAndActivate {
            1nat
        } else {
            0nat
        }
    }
}

/// How many of the actions ask for a poll.
pub open spec fn polls_asked(asked: Seq<ConnectActionView>) -> nat
    decreases asked.len(),
{
    if asked.len() == 0 {
        0
    } else {
        polls_asked(asked.drop_last()) + if asked.last() is Poll {
            1nat
        } else {
            0nat
        }
    }
}

/// How many of the actions ask for the deletion of a profile.
pub open spec fn deletions(asked: Seq<ConnectActionView>) -> nat
    decreases asked.len(),
{
    if asked.len() == 0 {
        0
    } else {
        deletions(asked.drop_last()) + if asked.last() is DeleteProfile {
            1nat
        } else {
            0nat
        }
    }
}

/// Whatever the driver reports, a flow asks for at most one activation, for
/// no more polls than are allowed, and for at most one deletion; and it asks
/// for a deletion only after an activation.
pub proof fn lemma_connect_run_bounds(
    network: NetworkView,
    password: Seq<char>,
    events: Seq<ConnectEventView>,
)
    ensures
        ({
            let (end, asked) = connect_run(connect_start(network, password).0, events);
            &&& asked.len() == events.len()
            &&& activations(asked) <= 1
            &&& polls_asked(asked) <= ACTIVATION_POLLS
            &&& deletions(asked) <= activations(asked)
            &&& end.stage is Lookup ==> activations(asked) == 0 && polls_asked(asked) == 0
                && deletions(asked) == 0
            &&& end.stage is Activating || end.stage is Creating ==> activations(asked) == 1
                && polls_asked(asked) == 0 && deletions(asked) == 0
            &&& end.stage matches ConnectStageView::Polling { polls, .. } ==> activations(asked)
                == 1 && polls_asked(asked) == polls + 1 && polls < ACTIVATION_POLLS && deletions(
                asked,
            ) == 0
            &&& end.stage is Cleaning ==> activations(asked) == 1 && deletions(asked) == 1
        }),
    decreases events.len(),
{
    let start = connect_start(network, password).0;
    if events.len() > 0 {
        lemma_connect_run_bounds(network, password, events.drop_last());
        let (mid, asked) = connect_run(start, events.drop_last());
        let (next, action) = connect_step(mid, events.last());
        assert(asked.push(action).drop_last() =~= asked);
        assert(asked.push(action).last() == action);
    }
}

/// A flow that has ended ignores every event.
pub proof fn lemma_connect_done_stays_done(flow: ConnectFlowView, event: ConnectEventView)
    requires
        flow.stage is Done,
    ensures
        connect_step(flow, event) == (flow, ConnectActionView::Ignored),
{
}

/// The flow after a sequence of events, and the actions it asked for, one
/// for each event.
pub open spec fn disconnect_run(flow: DisconnectFlowView, events: Seq<DisconnectEventView>) -> (
    DisconnectFlowView,
    Seq<DisconnectActionView>,
)
    decreases events.len(),
{
    if events.len() == 0 {
        (flow, Seq::empty())
    } else {
        let (mid, asked) = disconnect_run(flow, events.drop_last());
        let (next, action) = disconnect_step(mid, events.last());
        (next, asked.push(action))
    }
}

/// How many of the actions ask for a deactivation.
pub open spec fn deactivations(asked: Seq<DisconnectActionView>) -> nat
    decreases asked.len(),
{
    if asked.len() == 0 {
        0
    } else {
        deactivations(asked.drop_last()) + if asked.last() is Deactivate {
            1nat
        } else {
            0nat
        }
    }
}

/// How many of the actions ask for another listing of the active
/// connections after a pause.
pub open spec fn rechecks(asked: Seq<DisconnectActionView>) -> nat
    decreases asked.len(),
{
    if asked.len() == 0 {
        0
    } else {
        rechecks(asked.drop_last()) + if asked.last() == (DisconnectActionView::ListActive {
            after_secs: POLL_INTERVAL_SECS,
        }) {
            1nat
        } else {
            0nat
        }
    }
}

/// The events of a sequence of listings of the active connections.
pub open spec fn active_events(listings: Seq<Seq<ActiveReadingView>>) -> Seq<DisconnectEventView> {
    listings.map_values(|l: Seq<ActiveReadingView>| DisconnectEventView::Active(Ok(l)))
}

/// Whatever the driver reports, a flow asks for at most one deactivation and
/// for at most as many later listings as polls are allowed.
pub proof fn lemma_disconnect_run_bounds(device_path: Seq<char>, events: Seq<DisconnectEventView>)
    ensures
        ({
            let (end, asked) = disconnect_run(disconnect_start(device_path).0, events);
            &&& asked.len() == events.len()
            &&& deactivations(asked) <= 1
            &&& rechecks(asked) <= DISCONNECT_POLLS
            &&& end.stage is Lookup ==> deactivations(asked) == 0 && rechecks(asked) == 0
            &&& end.stage is Deactivating ==> deactivations(asked) == 1 && rechecks(asked) == 0
            &&& end.stage matches DisconnectStage::Polling { polls } ==> deactivations(asked) == 1
                && rechecks(asked) == polls + 1 && polls < DISCONNECT_POLLS
        }),
    decreases events.len(),
{
    if events.len() > 0 {
        lemma_disconnect_run_bounds(device_path, events.drop_last());
        let (mid, asked) = disconnect_run(disconnect_start(device_path).0, events.drop_last());
        let (next, action) = disconnect_step(mid, events.last());
        assert(asked.push(action).drop_last() =~= asked);
        if let DisconnectEventView::Active(Ok(connections)) = events.last() {
            lemma_active_wifi(connections, mid.device_path);
        }
    }
}

/// Where the flow finds an active wireless connection on the device when it
/// looks for one, it asks for exactly one deactivation, that of the first
/// such connection, however long it runs.
pub proof fn lemma_deactivates_exactly_once(
    device_path: Seq<char>,
    connections: Seq<ActiveReadingView>,
    later: Seq<DisconnectEventView>,
)
    requires
        active_wifi(connections, device_path) matches Ok(Some(_)),
    ensures
        ({
            let events = seq![DisconnectEventView::Active(Ok(connections))] + later;
            let (end, asked) = disconnect_run(disconnect_start(device_path).0, events);
            &&& asked.len() == events.len()
            &&& deactivations(asked) == 1
            &&& !(end.stage is Lookup)
            &&& active_wifi(connections, device_path) matches Ok(Some(i)) && asked[0] == (
            DisconnectActionView::Deactivate { connection_path: connections[i].path })
        }),
    decreases later.len(),
{
    let first = DisconnectEventView::Active(Ok(connections));
    let events = seq![first] + later;
    let start = disconnect_start(device_path).0;
    lemma_active_wifi(connections, device_path);
    if later.len() == 0 {
        assert(events.drop_last() =~= Seq::empty());
        assert(events.last() == first);
        let (next, action) = disconnect_step(start, first);
        let asked = Seq::<DisconnectActionView>::empty().push(action);
        assert(disconnect_run(start, events) == (next, asked));
        assert(asked.drop_last() =~= Seq::empty());
        assert(asked.last() == action);
        assert(action is Deactivate);
        assert(deactivations(asked.drop_last()) == 0);
        assert(deactivations(asked) == 1);
    } else {
        let shorter = later.drop_last();
        assert(events.drop_last() =~= seq![first] + shorter);
        assert(events.last() == later.last());
        lemma_deactivates_exactly_once(device_path, connections, shorter);
        let (mid, before) = disconnect_run(start, events.drop_last());
        let (next, action) = disconnect_step(mid, events.last());
        let asked = before.push(action);
        assert(disconnect_run(start, events) == (next, asked));
        assert(asked.drop_last() =~= before);
        assert(asked.last() == action);
        assert(asked[0] == before[0]);
        if let DisconnectEventView::Active(Ok(listing)) = events.last() {
            lemma_active_wifi(listing, mid.device_path);
        }
        assert(!(action is Deactivate));
        assert(deactivations(asked) == deactivations(before));
    }
}

/// After the deactivation the active connections are listed again for as
/// long as the device still has a wireless one. With one found in every
/// listing but the last, and no more listings than polls are allowed, each of
/// them is answered by another listing after a pause, and the last one
/// decides: on the `n`-th listing the flow does what `teardown_polled` says
/// for `n - 1` polls made before.
pub proof fn lemma_teardown_polling(flow: DisconnectFlowView, listings: Seq<Seq<ActiveReadingView>>)
    requires
        flow.stage == (DisconnectStage::Polling { polls: 0 }),
        1 <= listings.len() <= DISCONNECT_POLLS,
        forall|i: int|
            0 <= i < listings.len() - 1 ==> active_wifi(#[trigger] listings[i], flow.device_path)
                matches Ok(Some(_)),
    ensures
        ({
            let (end, asked) = disconnect_run(flow, active_events(listings));
            let n = listings.len() as int;
            &&& asked.len() == n
            &&& forall|i: int|
                0 <= i < n - 1 ==> asked[i] == (DisconnectActionView::ListActive {
                    after_secs: POLL_INTERVAL_SECS,
                })
            &&& (end, asked[n - 1]) == teardown_polled(flow, (n - 1) as u32, listings[n - 1])
        }),
    decreases listings.len(),
{
    let n = listings.len() as int;
    let events = active_events(listings);
    assert(events.last() == DisconnectEventView::Active(Ok(listings[n - 1])));
    if n == 1 {
        assert(events.drop_last() =~= Seq::empty());
        assert(disconnect_run(flow, events.drop_last()) == (
            flow,
            Seq::<DisconnectActionView>::empty(),
        ));
    } else {
        let front = listings.drop_last();
        assert(events.drop_last() =~= active_events(front));
        assert(forall|i: int| 0 <= i < front.len() ==> front[i] == listings[i]);
        lemma_teardown_polling(flow, front);
        let (mid, asked) = disconnect_run(flow, active_events(front));
        assert(active_wifi(listings[n - 2], flow.device_path) matches Ok(Some(_)));
        assert(mid.stage == DisconnectStage::Polling { polls: (n - 1) as u32 });
        let (next, action) = disconnect_step(mid, events.last());
        assert(disconnect_run(flow, events) == (next, asked.push(action)));
    }
}

} // verus!
