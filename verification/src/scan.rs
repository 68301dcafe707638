//! The directory of visible networks: from what was read of the access
//! points of a device to one entry per SSID, best first.

use vstd::prelude::*;
use crate::error::{NmError, NmErrorView};
use crate::network::{network_views, Network, NetworkView};
use crate::profile::{
    is_saved_ssid, profile_views, saved_wifi_ssids, SavedProfile, SavedProfileView,
};
use crate::scan_laws::{lemma_candidates, lemma_directory, lemma_directory_selection};
use crate::security::{classify, security_from_flags};
use crate::text::{
    check_object_path, contains_string, decode_lossy, is_object_path, opt_view, string_views,
    utf8_lossy,
};

verus! {

/// What was read of one access point. A property that could not be read is
/// `None`.
#[derive(Debug)]
pub struct AccessPointReading {
    pub path: String,
    pub ssid: Option<Vec<u8>>,
    pub strength: Option<u8>,
    pub flags: Option<u32>,
    pub wpa_flags: Option<u32>,
    pub rsn_flags: Option<u32>,
}

/// The view of `AccessPointReading`: its content as mathematical values.
pub struct AccessPointReadingView {
    pub path: Seq<char>,
    pub ssid: Option<Seq<u8>>,
    pub strength: Option<u8>,
    pub flags: Option<u32>,
    pub wpa_flags: Option<u32>,
    pub rsn_flags: Option<u32>,
}

impl View for AccessPointReading {
    type V = AccessPointReadingView;

    open spec fn view(&self) -> AccessPointReadingView {
        AccessPointReadingView {
            path: self.path@,
            ssid: match self.ssid {
                Some(bytes) => Some(bytes@),
                None => None,
            },
            strength: self.strength,
            flags: self.flags,
            wpa_flags: self.wpa_flags,
            rsn_flags: self.rsn_flags,
        }
    }
}

/// The views of a list of access-point readings, in order.
pub open spec fn reading_views(readings: Seq<AccessPointReading>) -> Seq<AccessPointReadingView> {
    readings.map_values(|r: AccessPointReading| r@)
}

/// Everything that a scan reads for one device.
#[derive(Debug)]
pub struct ScanReadings {
    /// Path of the access point that the device is connected to, if it has
    /// one and it could be read.
    pub active_access_point: Option<String>,
    /// The access points in sight, or what the transport said when they
    /// could not be listed.
    pub access_points: Result<Vec<AccessPointReading>, String>,
    /// The saved profiles of the service.
    pub saved_profiles: Vec<SavedProfile>,
}

/// The view of `ScanReadings`: its content as mathematical values.
pub struct ScanReadingsView {
    pub active_access_point: Option<Seq<char>>,
    pub access_points: Result<Seq<AccessPointReadingView>, Seq<char>>,
    pub saved_profiles: Seq<SavedProfileView>,
}

impl View for ScanReadings {
    type V = ScanReadingsView;

    open spec fn view(&self) -> ScanReadingsView {
        ScanReadingsView {
            active_access_point: match self.active_access_point {
                Some(path) => Some(path@),
                None => None,
            },
            access_points: match self.access_points {
                Ok(list) => Ok(reading_views(list@)),
                Err(e) => Err(e@),
            },
            saved_profiles: profile_views(self.saved_profiles@),
        }
    }
}

/// The SSID of an access point as text. One whose SSID could not be read has
/// none.
pub open spec fn ssid_of(reading: AccessPointReadingView) -> Seq<char> {
    match reading.ssid {
        Some(bytes) => utf8_lossy(bytes),
        None => Seq::empty(),
    }
}

/// A hidden access point is one without an SSID.
pub open spec fn is_hidden(reading: AccessPointReadingView) -> bool {
    ssid_of(reading).len() == 0
}

/// The flag word that was read, or 0.
pub open spec fn flags_or_zero(flags: Option<u32>) -> u32 {
    match flags {
        Some(f) => f,
        None => 0,
    }
}

/// The network that an access point stands for. Whatever could not be read
/// of it counts as 0.
pub open spec fn network_of(
    reading: AccessPointReadingView,
    device_path: Seq<char>,
    active: Option<Seq<char>>,
    saved: Seq<SavedProfileView>,
) -> NetworkView {
    NetworkView {
        ssid: ssid_of(reading),
        strength: match reading.strength {
            Some(s) => s,
            None => 0,
        },
        security: classify(
            flags_or_zero(reading.flags),
            flags_or_zero(reading.wpa_flags),
            flags_or_zero(reading.rsn_flags),
        ),
        is_connected: active == Some(reading.path),
        is_saved: is_saved_ssid(saved, ssid_of(reading)),
        ap_path: reading.path,
        device_path,
    }
}

/// The networks of the access points that are not hidden, in the order of
/// the readings.
pub open spec fn candidates(
    readings: Seq<AccessPointReadingView>,
    device_path: Seq<char>,
    active: Option<Seq<char>>,
    saved: Seq<SavedProfileView>,
) -> Seq<NetworkView>
    decreases readings.len(),
{
    if readings.len() == 0 {
        Seq::empty()
    } else {
        let front = candidates(readings.drop_last(), device_path, active, saved);
        if is_hidden(readings.last()) {
            front
        } else {
            front.push(network_of(readings.last(), device_path, active, saved))
        }
    }
}

/// Whether `a` belongs before `b` in the list: a connected network before
/// one that is not, and among two alike the stronger one first.
pub open spec fn outranks(a: NetworkView, b: NetworkView) -> bool {
    (a.is_connected && !b.is_connected) || (a.is_connected == b.is_connected && a.strength
        > b.strength)
}

/// Where `x` goes into a list: before the first entry that it outranks, or
/// at the end.
pub open spec fn insertion_point(list: Seq<NetworkView>, x: NetworkView) -> int
    decreases list.len(),
{
    if list.len() == 0 || outranks(x, list[0]) {
        0
    } else {
        1 + insertion_point(list.drop_first(), x)
    }
}

/// The networks best first. Entries of which neither outranks the other keep
/// the order they came in.
pub open spec fn ranked(networks: Seq<NetworkView>) -> Seq<NetworkView>
    decreases networks.len(),
{
    if networks.len() == 0 {
        Seq::empty()
    } else {
        let front = ranked(networks.drop_last());
        front.insert(insertion_point(front, networks.last()), networks.last())
    }
}

/// Whether some network of the list has the given SSID.
pub open spec fn has_ssid(networks: Seq<NetworkView>, ssid: Seq<char>) -> bool {
    exists|i: int| 0 <= i < networks.len() && (#[trigger] networks[i]).ssid == ssid
}

/// The first network of each SSID, in the order of the list.
pub open spec fn first_per_ssid(networks: Seq<NetworkView>) -> Seq<NetworkView>
    decreases networks.len(),
{
    if networks.len() == 0 {
        Seq::empty()
    } else {
        let front = first_per_ssid(networks.drop_last());
        if has_ssid(networks.drop_last(), networks.last().ssid) {
            front
        } else {
            front.push(networks.last())
        }
    }
}

/// The candidates of a scan whose access points could be listed.
pub open spec fn scan_candidates(device_path: Seq<char>, readings: ScanReadingsView) -> Seq<
    NetworkView,
>
    recommends
        readings.access_points is Ok,
{
    candidates(
        readings.access_points->Ok_0,
        device_path,
        readings.active_access_point,
        readings.saved_profiles,
    )
}

/// The list that a scan shows: one entry per SSID in sight, best first.
pub open spec fn visible_networks(device_path: Seq<char>, readings: ScanReadingsView) -> Seq<
    NetworkView,
>
    recommends
        readings.access_points is Ok,
{
    first_per_ssid(ranked(scan_candidates(device_path, readings)))
}

/// A list is ranked when no entry is outranked by a later one.
pub open spec fn is_ranked(list: Seq<NetworkView>) -> bool {
    forall|i: int, j: int|
        0 <= i < j < list.len() ==> !outranks(#[trigger] list[j], #[trigger] list[i])
}

/// Whether no earlier entry of the list has the SSID of entry `i`.
pub open spec fn is_first_of_ssid(list: Seq<NetworkView>, i: int) -> bool {
    forall|j: int| 0 <= j < i ==> (#[trigger] list[j]).ssid != list[i].ssid
}

/// What makes `shown` the directory of the candidates `found`: it lists
/// candidates only, one for every SSID among them and no SSID twice; the one
/// it lists for an SSID is outranked by no candidate of that SSID; and it is
/// ranked.
pub open spec fn is_directory_of(shown: Seq<NetworkView>, found: Seq<NetworkView>) -> bool {
    &&& forall|k: int| 0 <= k < shown.len() ==> found.contains(#[trigger] shown[k])
    &&& forall|j: int| 0 <= j < found.len() ==> has_ssid(shown, (#[trigger] found[j]).ssid)
    &&& forall|k: int, l: int|
        0 <= k < l < shown.len() ==> (#[trigger] shown[k]).ssid != (#[trigger] shown[l]).ssid
    &&& forall|k: int, j: int|
        0 <= k < shown.len() && 0 <= j < found.len() && (#[trigger] found[j]).ssid == (
        #[trigger] shown[k]).ssid ==> !outranks(found[j], shown[k])
    &&& is_ranked(shown)
}

/// Whether candidate `i` is shown before candidate `j`: it outranks `j`, or
/// neither outranks the other and `i` was found first.
pub open spec fn comes_before(found: Seq<NetworkView>, i: int, j: int) -> bool {
    outranks(found[i], found[j]) || (!outranks(found[j], found[i]) && i < j)
}

/// Whether candidate `i` is the one that is shown for its SSID: it comes
/// before every other candidate with that SSID.
pub open spec fn is_pick(found: Seq<NetworkView>, i: int) -> bool {
    &&& 0 <= i < found.len()
    &&& forall|j: int|
        0 <= j < found.len() && j != i && (#[trigger] found[j]).ssid == found[i].ssid
            ==> comes_before(found, i, j)
}

/// What makes `shown` the selection `picks` of the candidates `found`: it
/// holds the candidates at the indices `picks`, these are exactly the picks
/// of their SSIDs, and they stand in the order in which they come before one
/// another.
pub open spec fn is_selection(
    found: Seq<NetworkView>,
    shown: Seq<NetworkView>,
    picks: Seq<int>,
) -> bool {
    &&& picks.len() == shown.len()
    &&& forall|k: int|
        0 <= k < picks.len() ==> is_pick(found, #[trigger] picks[k]) && found[picks[k]] == shown[k]
    &&& forall|k: int, l: int|
        0 <= k < l < picks.len() ==> comes_before(found, #[trigger] picks[k], #[trigger] picks[l])
    &&& forall|i: int| #[trigger] is_pick(found, i) ==> picks.contains(i)
}

/// Whether the network is that of some access point of the scan that is not
/// hidden.
pub open spec fn is_network_in_sight(
    device_path: Seq<char>,
    readings: ScanReadingsView,
    network: NetworkView,
) -> bool
    recommends
        readings.access_points is Ok,
{
    exists|i: int|
        0 <= i < readings.access_points->Ok_0.len() && !is_hidden(
            #[trigger] readings.access_points->Ok_0[i],
        ) && network == network_of(
            readings.access_points->Ok_0[i],
            device_path,
            readings.active_access_point,
            readings.saved_profiles,
        )
}

fn outranks_exec(a: &Network, b: &Network) -> (yes: bool)
    ensures
        yes == outranks(a@, b@),
{
    (a.is_connected && !b.is_connected) || (a.is_connected == b.is_connected && a.strength
        > b.strength)
}

/// The network of one access point, unless it is hidden.
fn network_from(
    reading: &AccessPointReading,
    device_path: &String,
    active: &Option<String>,
    saved_ssids: &Vec<String>,
    Ghost(saved): Ghost<Seq<SavedProfileView>>,
) -> (network: Option<Network>)
    requires
        forall|s: Seq<char>| string_views(saved_ssids@).contains(s) <==> is_saved_ssid(saved, s),
    ensures
        match network {
            Some(n) => !is_hidden(reading@) && n@ == network_of(
                reading@,
                device_path@,
                opt_view(*active),
                saved,
            ),
            None => is_hidden(reading@),
        },
{
    let ssid = match &reading.ssid {
        Some(bytes) => decode_lossy(bytes),
        None => String::new(),
    };
    if ssid.as_str().is_empty() {
        return None;
    }
    let strength = match reading.strength {
        Some(s) => s,
        None => 0,
    };
    let flags = match reading.flags {
        Some(f) => f,
        None => 0,
    };
    let wpa_flags = match reading.wpa_flags {
        Some(f) => f,
        None => 0,
    };
    let rsn_flags = match reading.rsn_flags {
        Some(f) => f,
        None => 0,
    };
    let is_connected = match active {
        Some(path) => *path == reading.path,
        None => false,
    };
    let is_saved = contains_string(saved_ssids, &ssid);
    Some(
        Network {
            ssid,
            strength,
            security: security_from_flags(flags, wpa_flags, rsn_flags),
            is_connected,
            is_saved,
            ap_path: reading.path.clone(),
            device_path: device_path.clone(),
        },
    )
}

fn collect_candidates(
    access_points: &Vec<AccessPointReading>,
    device_path: &String,
    active: &Option<String>,
    saved_ssids: &Vec<String>,
    Ghost(saved): Ghost<Seq<SavedProfileView>>,
) -> (found: Vec<Network>)
    requires
        forall|s: Seq<char>| string_views(saved_ssids@).contains(s) <==> is_saved_ssid(saved, s),
    ensures
        network_views(found@) == candidates(
            reading_views(access_points@),
            device_path@,
            opt_view(*active),
            saved,
        ),
{
    let mut found: Vec<Network> = Vec::new();
    let mut i: usize = 0;
    proof {
        assert(network_views(found@) =~= Seq::empty());
    }
    while i < access_points.len()
        invariant
            i <= access_points.len(),
            forall|s: Seq<char>|
                string_views(saved_ssids@).contains(s) <==> is_saved_ssid(saved, s),
            network_views(found@) == candidates(
                reading_views(access_points@).take(i as int),
                device_path@,
                opt_view(*active),
                saved,
            ),
        decreases access_points.len() - i,
    {
        let ghost before = network_views(found@);
        proof {
            let next = reading_views(access_points@).take(i + 1);
            assert(next.drop_last() =~= reading_views(access_points@).take(i as int));
            assert(next.last() == access_points[i as int]@);
        }
        match network_from(&access_points[i], device_path, active, saved_ssids, Ghost(saved)) {
            Some(network) => {
                let ghost n = network@;
                found.push(network);
                proof {
                    assert(network_views(found@) =~= before.push(n));
                }
            },
            None => {},
        }
        i += 1;
    }
    proof {
        assert(reading_views(access_points@).take(access_points.len() as int) =~= reading_views(
            access_points@,
        ));
    }
    found
}

/// Orders the networks best first, without changing the order of entries of
/// which neither outranks the other.
fn rank(found: &Vec<Network>) -> (sorted: Vec<Network>)
    ensures
        network_views(sorted@) == ranked(network_views(found@)),
{
    let mut sorted: Vec<Network> = Vec::new();
    let mut i: usize = 0;
    proof {
        assert(network_views(sorted@) =~= Seq::empty());
    }
    while i < found.len()
        invariant
            i <= found.len(),
            network_views(sorted@) == ranked(network_views(found@).take(i as int)),
        decreases found.len() - i,
    {
        let x = found[i].clone();
        let ghost list = network_views(sorted@);
        let mut p: usize = 0;
        proof {
            assert(list.skip(0) =~= list);
        }
        while p < sorted.len() && !outranks_exec(&x, &sorted[p])
            invariant
                p <= sorted.len(),
                list == network_views(sorted@),
                insertion_point(list, x@) == p + insertion_point(list.skip(p as int), x@),
            decreases sorted.len() - p,
        {
            proof {
                let rest = list.skip(p as int);
                assert(rest[0] == list[p as int]);
                assert(rest.drop_first() =~= list.skip(p + 1));
            }
            p += 1;
        }
        proof {
            let rest = list.skip(p as int);
            if p < sorted.len() {
                assert(rest[0] == list[p as int]);
            }
            assert(insertion_point(list, x@) == p);
            let next = network_views(found@).take(i + 1);
            assert(next.drop_last() =~= network_views(found@).take(i as int));
            assert(next.last() == x@);
        }
        sorted.insert(p, x);
        proof {
            assert(network_views(sorted@) =~= list.insert(p as int, x@));
        }
        i += 1;
    }
    proof {
        assert(network_views(found@).take(found.len() as int) =~= network_views(found@));
    }
    sorted
}

/// Whether one of the first `end` networks has the given SSID.
fn prefix_has_ssid(list: &Vec<Network>, end: usize, ssid: &String) -> (found: bool)
    requires
        end <= list.len(),
    ensures
        found == has_ssid(network_views(list@).take(end as int), ssid@),
{
    let ghost front = network_views(list@).take(end as int);
    let mut j: usize = 0;
    while j < end
        invariant
            j <= end <= list.len(),
            front == network_views(list@).take(end as int),
            forall|m: int| 0 <= m < j ==> (#[trigger] front[m]).ssid != ssid@,
        decreases end - j,
    {
        if list[j].ssid == *ssid {
            assert(front[j as int].ssid == ssid@);
            return true;
        }
        j += 1;
    }
    false
}

/// Keeps the first network of each SSID.
fn keep_first_per_ssid(sorted: &Vec<Network>) -> (shown: Vec<Network>)
    ensures
        network_views(shown@) == first_per_ssid(network_views(sorted@)),
{
    let mut shown: Vec<Network> = Vec::new();
    let mut i: usize = 0;
    proof {
        assert(network_views(shown@) =~= Seq::empty());
    }
    while i < sorted.len()
        invariant
            i <= sorted.len(),
            network_views(shown@) == first_per_ssid(network_views(sorted@).take(i as int)),
        decreases sorted.len() - i,
    {
        let ghost before = network_views(shown@);
        proof {
            let next = network_views(sorted@).take(i + 1);
            assert(next.drop_last() =~= network_views(sorted@).take(i as int));
            assert(next.last() == sorted[i as int]@);
        }
        if !prefix_has_ssid(sorted, i, &sorted[i].ssid) {
            let network = sorted[i].clone();
            shown.push(network);
            proof {
                assert(network_views(shown@) =~= before.push(sorted[i as int]@));
            }
        }
        i += 1;
    }
    proof {
        assert(network_views(sorted@).take(sorted.len() as int) =~= network_views(sorted@));
    }
    shown
}

/// Makes the list of networks out of what a scan has read for a device.
///
/// The device path has to be a well-formed object path, and the access
/// points must have been listed; then the scan succeeds, whatever else could
/// not be read. Hidden access points are left out. Of several access points
/// with one SSID the list holds the connected one, else the strongest; the
/// connected network comes first, the others by falling strength.
pub fn scan_networks(device_path: &str, readings: &ScanReadings) -> (result: Result<
    Vec<Network>,
    NmError,
>)
    ensures
        match result {
            Ok(list) => {
                let shown = network_views(list@);
                let found = scan_candidates(device_path@, readings@);
                &&& is_object_path(device_path@)
                &&& readings@.access_points is Ok
                &&& shown == visible_networks(device_path@, readings@)
                &&& is_directory_of(shown, found)
                &&& exists|picks: Seq<int>| is_selection(found, shown, picks)
                &&& forall|k: int|
                    0 <= k < shown.len() ==> (#[trigger] shown[k]).ssid.len() > 0
                        && is_network_in_sight(device_path@, readings@, shown[k])
                &&& forall|k: int, j: int|
                    0 <= k < shown.len() && 0 <= j < found.len() && (#[trigger] found[j]).ssid == (
                    #[trigger] shown[k]).ssid && found[j].is_connected ==> shown[k].is_connected
            },
            Err(e) => if !is_object_path(device_path@) {
                e@ == NmErrorView::InvalidHandle
            } else {
                readings@.access_points matches Err(said) && e@ == NmErrorView::ScanQueryFailed(
                    said,
                )
            },
        },
{
    match check_object_path(device_path) {
        Ok(_) => {},
        Err(e) => {
            return Err(e);
        },
    }
    let access_points = match &readings.access_points {
        Ok(list) => list,
        Err(said) => {
            return Err(NmError::ScanQueryFailed(said.clone()));
        },
    };
    let path = device_path.to_owned();
    let saved_ssids = saved_wifi_ssids(&readings.saved_profiles);
    let found = collect_candidates(
        access_points,
        &path,
        &readings.active_access_point,
        &saved_ssids,
        Ghost(readings@.saved_profiles),
    );
    let sorted = rank(&found);
    let shown = keep_first_per_ssid(&sorted);
    proof {
        let candidates = scan_candidates(device_path@, readings@);
        let list = network_views(shown@);
        assert(network_views(found@) == candidates);
        lemma_directory(candidates);
        let picks = lemma_directory_selection(candidates);
        assert(is_selection(candidates, list, picks));
        lemma_candidates(
            reading_views(access_points@),
            device_path@,
            readings@.active_access_point,
            readings@.saved_profiles,
        );
        assert forall|k: int| 0 <= k < list.len() implies (#[trigger] list[k]).ssid.len() > 0
            && is_network_in_sight(device_path@, readings@, list[k]) by {
            assert(candidates.contains(list[k]));
            let m = choose|m: int| 0 <= m < candidates.len() && candidates[m] == list[k];
        }
        assert forall|k: int, j: int|
            0 <= k < list.len() && 0 <= j < candidates.len() && (#[trigger] candidates[j]).ssid == (
            #[trigger] list[k]).ssid && candidates[j].is_connected implies list[k].is_connected by {
            assert(!outranks(candidates[j], list[k]));
        }
    }
    Ok(shown)
}

} // verus!
