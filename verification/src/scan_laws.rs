//! What holds of the list of networks that a scan shows: which access point
//! stands for an SSID, and in which order the networks come.

use vstd::prelude::*;
use crate::network::NetworkView;
use crate::profile::SavedProfileView;
use crate::scan::{
    candidates, comes_before, first_per_ssid, has_ssid, insertion_point, is_directory_of,
    is_first_of_ssid, is_hidden, is_pick, is_ranked, is_selection, network_of, outranks, ranked,
    AccessPointReadingView,
};

verus! {

/// The insertion point lies in the list or at its end, `x` outranks the
/// entry it points at and none before it.
pub proof fn lemma_insertion_point(list: Seq<NetworkView>, x: NetworkView)
    ensures
        0 <= insertion_point(list, x) <= list.len(),
        forall|q: int| 0 <= q < insertion_point(list, x) ==> !outranks(x, #[trigger] list[q]),
        insertion_point(list, x) < list.len() ==> outranks(x, list[insertion_point(list, x)]),
    decreases list.len(),
{
    if list.len() == 0 || outranks(x, list[0]) {
    } else {
        let rest = list.drop_first();
        lemma_insertion_point(rest, x);
        let p = insertion_point(list, x);
        assert forall|q: int| 0 <= q < p implies !outranks(x, #[trigger] list[q]) by {
            if q > 0 {
                assert(rest[q - 1] == list[q]);
            }
        }
        if p < list.len() {
            assert(rest[p - 1] == list[p]);
        }
    }
}

/// Ranking reorders and nothing else: the result is ranked and holds the
/// same networks.
pub proof fn lemma_ranked(networks: Seq<NetworkView>)
    ensures
        is_ranked(ranked(networks)),
        ranked(networks).len() == networks.len(),
        forall|x: NetworkView| ranked(networks).contains(x) <==> networks.contains(x),
    decreases networks.len(),
{
    if networks.len() > 0 {
        let front_in = networks.drop_last();
        let x = networks.last();
        let front = ranked(front_in);
        let p = insertion_point(front, x);
        let out = front.insert(p, x);
        lemma_ranked(front_in);
        lemma_insertion_point(front, x);
        assert(out.len() == front.len() + 1);
        assert(out[p] == x);
        assert(forall|k: int| 0 <= k < p ==> out[k] == front[k]);
        assert(forall|k: int| p < k < out.len() ==> out[k] == front[k - 1]);
        assert forall|i: int, j: int| 0 <= i < j < out.len() implies !outranks(
            #[trigger] out[j],
            #[trigger] out[i],
        ) by {
            if j == p {
                assert(out[i] == front[i]);
            } else if i == p {
                assert(out[j] == front[j - 1]);
                assert(outranks(x, front[p]));
                if j - 1 > p {
                    assert(!outranks(front[j - 1], front[p]));
                }
            } else {
                let fi = if i < p {
                    i
                } else {
                    i - 1
                };
                let fj = if j < p {
                    j
                } else {
                    j - 1
                };
                assert(out[i] == front[fi]);
                assert(out[j] == front[fj]);
                assert(!outranks(front[fj], front[fi]));
            }
        }
        assert forall|y: NetworkView| out.contains(y) <==> networks.contains(y) by {
            if out.contains(y) {
                let k = choose|k: int| 0 <= k < out.len() && out[k] == y;
                if k == p {
                    assert(networks[networks.len() - 1] == y);
                } else {
                    let fk = if k < p {
                        k
                    } else {
                        k - 1
                    };
                    assert(front[fk] == y);
                    assert(front.contains(y));
                    assert(front_in.contains(y));
                    let m = choose|m: int| 0 <= m < front_in.len() && front_in[m] == y;
                    assert(networks[m] == y);
                }
            }
            if networks.contains(y) {
                let m = choose|m: int| 0 <= m < networks.len() && networks[m] == y;
                if m == networks.len() - 1 {
                    assert(out[p] == y);
                } else {
                    assert(front_in[m] == y);
                    assert(front_in.contains(y));
                    assert(front.contains(y));
                    let k = choose|k: int| 0 <= k < front.len() && front[k] == y;
                    if k < p {
                        assert(out[k] == y);
                    } else {
                        assert(out[k + 1] == y);
                    }
                }
            }
        }
    }
}

/// Keeping the first entry of each SSID keeps exactly those, in their order:
/// every entry kept is the first of its SSID, every SSID stays, none stays
/// twice, and a ranked list stays ranked.
pub proof fn lemma_first_per_ssid(networks: Seq<NetworkView>)
    ensures
        forall|k: int|
            0 <= k < first_per_ssid(networks).len() ==> exists|i: int|
                0 <= i < networks.len() && networks[i] == (#[trigger] first_per_ssid(networks)[k])
                    && #[trigger] is_first_of_ssid(networks, i),
        forall|i: int|
            0 <= i < networks.len() ==> has_ssid(
                first_per_ssid(networks),
                (#[trigger] networks[i]).ssid,
            ),
        forall|k: int, l: int|
            0 <= k < l < first_per_ssid(networks).len() ==> (#[trigger] first_per_ssid(
                networks,
            )[k]).ssid != (#[trigger] first_per_ssid(networks)[l]).ssid,
        is_ranked(networks) ==> is_ranked(first_per_ssid(networks)),
    decreases networks.len(),
{
    if networks.len() > 0 {
        let front_in = networks.drop_last();
        let x = networks.last();
        let front = first_per_ssid(front_in);
        let out = first_per_ssid(networks);
        let n = networks.len() - 1;
        lemma_first_per_ssid(front_in);
        assert(forall|j: int| 0 <= j < n ==> front_in[j] == networks[j]);
        assert(is_ranked(networks) ==> is_ranked(front_in));
        // every entry of `front` is the first of its SSID in `networks` too
        assert forall|k: int| 0 <= k < front.len() implies exists|i: int|
            0 <= i < networks.len() && networks[i] == (#[trigger] front[k])
                && #[trigger] is_first_of_ssid(networks, i) by {
            let i = choose|i: int|
                0 <= i < front_in.len() && front_in[i] == front[k] && #[trigger] is_first_of_ssid(
                    front_in,
                    i,
                );
            assert forall|j: int| 0 <= j < i implies (#[trigger] networks[j]).ssid
                != networks[i].ssid by {
                assert(front_in[j].ssid != front_in[i].ssid);
            }
            assert(is_first_of_ssid(networks, i));
        }
        if has_ssid(front_in, x.ssid) {
            assert(out == front);
            assert forall|i: int| 0 <= i < networks.len() implies has_ssid(
                out,
                (#[trigger] networks[i]).ssid,
            ) by {
                if i == n {
                    let m = choose|m: int|
                        0 <= m < front_in.len() && (#[trigger] front_in[m]).ssid == x.ssid;
                    assert(has_ssid(front, front_in[m].ssid));
                } else {
                    assert(has_ssid(front, front_in[i].ssid));
                }
            }
        } else {
            assert(out == front.push(x));
            assert(forall|k: int| 0 <= k < front.len() ==> out[k] == front[k]);
            assert(out[front.len() as int] == x);
            assert forall|k: int| 0 <= k < out.len() implies exists|i: int|
                0 <= i < networks.len() && networks[i] == (#[trigger] out[k])
                    && #[trigger] is_first_of_ssid(networks, i) by {
                if k == front.len() {
                    assert forall|j: int| 0 <= j < n implies (#[trigger] networks[j]).ssid
                        != networks[n].ssid by {
                        assert(front_in[j].ssid != x.ssid);
                    }
                    assert(is_first_of_ssid(networks, n));
                } else {
                    assert(out[k] == front[k]);
                }
            }
            assert forall|i: int| 0 <= i < networks.len() implies has_ssid(
                out,
                (#[trigger] networks[i]).ssid,
            ) by {
                if i == n {
                    assert(out[front.len() as int].ssid == networks[i].ssid);
                } else {
                    assert(has_ssid(front, front_in[i].ssid));
                    let m = choose|m: int|
                        0 <= m < front.len() && (#[trigger] front[m]).ssid == front_in[i].ssid;
                    assert(out[m].ssid == networks[i].ssid);
                }
            }
            assert forall|k: int, l: int| 0 <= k < l < out.len() implies (#[trigger] out[k]).ssid
                != (#[trigger] out[l]).ssid by {
                if l == front.len() {
                    let i = choose|i: int|
                        0 <= i < front_in.len() && front_in[i] == front[k]
                            && #[trigger] is_first_of_ssid(front_in, i);
                    assert(front_in[i].ssid != x.ssid);
                } else {
                    assert(front[k].ssid != front[l].ssid);
                }
            }
            if is_ranked(networks) {
                assert forall|i: int, j: int| 0 <= i < j < out.len() implies !outranks(
                    #[trigger] out[j],
                    #[trigger] out[i],
                ) by {
                    if j == front.len() {
                        let m = choose|m: int|
                            0 <= m < front_in.len() && front_in[m] == front[i]
                                && #[trigger] is_first_of_ssid(front_in, m);
                        assert(!outranks(networks[n], networks[m]));
                    } else {
                        assert(!outranks(front[j], front[i]));
                    }
                }
            }
        }
    }
}

/// Ranking the candidates and keeping the first of each SSID yields their
/// directory.
pub proof fn lemma_directory(found: Seq<NetworkView>)
    ensures
        is_directory_of(first_per_ssid(ranked(found)), found),
{
    let sorted = ranked(found);
    let shown = first_per_ssid(sorted);
    lemma_ranked(found);
    lemma_first_per_ssid(sorted);
    assert forall|k: int| 0 <= k < shown.len() implies found.contains(#[trigger] shown[k]) by {
        let i = choose|i: int|
            0 <= i < sorted.len() && sorted[i] == shown[k] && #[trigger] is_first_of_ssid(sorted, i);
        assert(sorted.contains(shown[k]));
    }
    assert forall|j: int| 0 <= j < found.len() implies has_ssid(
        shown,
        (#[trigger] found[j]).ssid,
    ) by {
        assert(found.contains(found[j]));
        assert(sorted.contains(found[j]));
        let i = choose|i: int| 0 <= i < sorted.len() && sorted[i] == found[j];
        assert(has_ssid(shown, sorted[i].ssid));
    }
    assert forall|k: int, j: int|
        0 <= k < shown.len() && 0 <= j < found.len() && (#[trigger] found[j]).ssid == (
        #[trigger] shown[k]).ssid implies !outranks(found[j], shown[k]) by {
        let i = choose|i: int|
            0 <= i < sorted.len() && sorted[i] == shown[k] && #[trigger] is_first_of_ssid(sorted, i);
        assert(found.contains(found[j]));
        assert(sorted.contains(found[j]));
        let m = choose|m: int| 0 <= m < sorted.len() && sorted[m] == found[j];
        if m < i {
            assert(sorted[m].ssid != sorted[i].ssid);
        } else if m > i {
            assert(!outranks(sorted[m], sorted[i]));
        }
    }
}

/// Every candidate has an SSID and is the network of an access point that
/// is not hidden; and every such access point has its network among the
/// candidates.
pub proof fn lemma_candidates(
    readings: Seq<AccessPointReadingView>,
    device_path: Seq<char>,
    active: Option<Seq<char>>,
    saved: Seq<SavedProfileView>,
)
    ensures
        forall|k: int|
            0 <= k < candidates(readings, device_path, active, saved).len() ==> exists|i: int|
                0 <= i < readings.len() && !is_hidden(#[trigger] readings[i]) && (
                #[trigger] candidates(readings, device_path, active, saved)[k]) == network_of(
                    readings[i],
                    device_path,
                    active,
                    saved,
                ),
        forall|i: int|
            0 <= i < readings.len() && !is_hidden(#[trigger] readings[i]) ==> candidates(
                readings,
                device_path,
                active,
                saved,
            ).contains(network_of(readings[i], device_path, active, saved)),
    decreases readings.len(),
{
    if readings.len() > 0 {
        let front_in = readings.drop_last();
        let front = candidates(front_in, device_path, active, saved);
        let out = candidates(readings, device_path, active, saved);
        let n = readings.len() - 1;
        lemma_candidates(front_in, device_path, active, saved);
        assert(forall|j: int| 0 <= j < n ==> front_in[j] == readings[j]);
        assert forall|k: int| 0 <= k < out.len() implies exists|i: int|
            0 <= i < readings.len() && !is_hidden(#[trigger] readings[i]) && (#[trigger] out[k])
                == network_of(readings[i], device_path, active, saved) by {
            if k < front.len() {
                assert(out[k] == front[k]);
                let i = choose|i: int|
                    0 <= i < front_in.len() && !is_hidden(#[trigger] front_in[i]) && front[k]
                        == network_of(front_in[i], device_path, active, saved);
                assert(readings[i] == front_in[i]);
            } else {
                assert(!is_hidden(readings[n]));
            }
        }
        assert forall|i: int|
            0 <= i < readings.len() && !is_hidden(#[trigger] readings[i]) implies out.contains(
            network_of(readings[i], device_path, active, saved),
        ) by {
            let net = network_of(readings[i], device_path, active, saved);
            if i == n {
                assert(out[out.len() - 1] == net);
            } else {
                assert(!is_hidden(front_in[i]));
                assert(front.contains(net));
                let k = choose|k: int| 0 <= k < front.len() && front[k] == net;
                assert(out[k] == net);
            }
        }
    }
}

/// Where some candidate is connected, the list starts with a connected
/// network.
pub proof fn lemma_connected_comes_first(
    found: Seq<NetworkView>,
    shown: Seq<NetworkView>,
    connected: int,
)
    requires
        is_directory_of(shown, found),
        0 <= connected < found.len(),
        found[connected].is_connected,
    ensures
        shown.len() > 0,
        shown[0].is_connected,
{
    assert(has_ssid(shown, found[connected].ssid));
    let k = choose|k: int|
        0 <= k < shown.len() && (#[trigger] shown[k]).ssid == found[connected].ssid;
    assert(!outranks(found[connected], shown[k]));
    if k > 0 {
        assert(!outranks(shown[k], shown[0]));
    }
}

/// Of two different candidates one comes before the other, never both, and
/// never one before itself; and what comes before a candidate comes before
/// all that this one comes before.
pub proof fn lemma_comes_before_is_an_order(found: Seq<NetworkView>, i: int, j: int, k: int)
    ensures
        !comes_before(found, i, i),
        i != j ==> (comes_before(found, i, j) <==> !comes_before(found, j, i)),
        comes_before(found, i, j) && comes_before(found, j, k) ==> comes_before(found, i, k),
{
}

/// Ranking moves every candidate to a place of its own, and a candidate that
/// comes before another one gets the earlier place. `place[i]` is where
/// candidate `i` stands in the ranking, `origin[p]` is the candidate that
/// stands at place `p`.
pub proof fn lemma_ranked_places(found: Seq<NetworkView>) -> (places: (Seq<int>, Seq<int>))
    ensures
        ({
            let (place, origin) = places;
            let n = found.len();
            &&& place.len() == n
            &&& origin.len() == n
            &&& ranked(found).len() == n
            &&& forall|i: int|
                0 <= i < n ==> 0 <= #[trigger] place[i] < n && origin[place[i]] == i && ranked(
                    found,
                )[place[i]] == found[i]
            &&& forall|p: int|
                0 <= p < n ==> 0 <= #[trigger] origin[p] < n && place[origin[p]] == p
            &&& forall|i: int, j: int|
                0 <= i < n && 0 <= j < n && comes_before(found, i, j) ==> #[trigger] place[i]
                    < #[trigger] place[j]
        }),
    decreases found.len(),
{
    let n = found.len() as int;
    if n == 0 {
        (Seq::empty(), Seq::empty())
    } else {
        let front_in = found.drop_last();
        let x = found.last();
        let (front_place, front_origin) = lemma_ranked_places(front_in);
        let front = ranked(front_in);
        let at = insertion_point(front, x);
        lemma_ranked(front_in);
        lemma_insertion_point(front, x);
        let out = ranked(found);
        assert(out == front.insert(at, x));
        let place = Seq::new(
            n as nat,
            |i: int|
                if i == n - 1 {
                    at
                } else if front_place[i] >= at {
                    front_place[i] + 1
                } else {
                    front_place[i]
                },
        );
        let origin = Seq::new(
            n as nat,
            |p: int|
                if p == at {
                    n - 1
                } else if p < at {
                    front_origin[p]
                } else {
                    front_origin[p - 1]
                },
        );
        assert(forall|i: int| 0 <= i < n - 1 ==> front_in[i] == found[i]);
        assert forall|i: int| 0 <= i < n implies 0 <= #[trigger] place[i] < n && origin[place[i]]
            == i && out[place[i]] == found[i] by {
            if i < n - 1 {
                assert(0 <= front_place[i] < n - 1);
                assert(front[front_place[i]] == front_in[i]);
            }
        }
        assert forall|p: int| 0 <= p < n implies 0 <= #[trigger] origin[p] < n && place[origin[p]]
            == p by {
            if p < at {
                assert(0 <= front_origin[p] < n - 1 && front_place[front_origin[p]] == p);
            } else if p > at {
                assert(0 <= front_origin[p - 1] < n - 1 && front_place[front_origin[p - 1]] == p
                    - 1);
            }
        }
        // everything from the insertion point on is outranked by the new candidate
        assert forall|q: int| at <= q < n - 1 implies outranks(x, #[trigger] front[q]) by {
            assert(outranks(x, front[at]));
            if q > at {
                assert(!outranks(front[q], front[at]));
            }
        }
        assert forall|i: int, j: int|
            0 <= i < n && 0 <= j < n && comes_before(found, i, j) implies #[trigger] place[i]
            < #[trigger] place[j] by {
            if i < n - 1 && j < n - 1 {
                assert(comes_before(front_in, i, j));
                assert(front_place[i] < front_place[j]);
            } else if j == n - 1 && i < n - 1 {
                assert(!outranks(x, found[i]));
                assert(0 <= front_place[i] < n - 1);
                assert(front[front_place[i]] == found[i]);
                if front_place[i] >= at {
                    assert(outranks(x, front[front_place[i]]));
                }
            } else if i == n - 1 && j < n - 1 {
                assert(outranks(x, found[j]));
                assert(0 <= front_place[j] < n - 1);
                assert(front[front_place[j]] == found[j]);
                if front_place[j] < at {
                    assert(!outranks(x, front[front_place[j]]));
                }
            }
        }
        (place, origin)
    }
}

/// Keeping the first entry of each SSID keeps the entries at the places
/// `kept`: these are exactly the places that are the first of their SSID, in
/// rising order.
pub proof fn lemma_first_per_ssid_places(list: Seq<NetworkView>) -> (kept: Seq<int>)
    ensures
        kept.len() == first_per_ssid(list).len(),
        forall|k: int|
            0 <= k < kept.len() ==> 0 <= #[trigger] kept[k] < list.len() && list[kept[k]]
                == first_per_ssid(list)[k] && is_first_of_ssid(list, kept[k]),
        forall|k: int, l: int| 0 <= k < l < kept.len() ==> #[trigger] kept[k] < #[trigger] kept[l],
        forall|m: int|
            0 <= m < list.len() && #[trigger] is_first_of_ssid(list, m) ==> kept.contains(m),
    decreases list.len(),
{
    if list.len() == 0 {
        Seq::empty()
    } else {
        let front_in = list.drop_last();
        let n = list.len() - 1;
        let front_kept = lemma_first_per_ssid_places(front_in);
        let front = first_per_ssid(front_in);
        assert(forall|j: int| 0 <= j < n ==> front_in[j] == list[j]);
        assert forall|m: int| 0 <= m < n implies (is_first_of_ssid(front_in, m)
            <==> #[trigger] is_first_of_ssid(list, m)) by {
            if is_first_of_ssid(front_in, m) {
                assert forall|j: int| 0 <= j < m implies (#[trigger] list[j]).ssid
                    != list[m].ssid by {
                    assert(front_in[j].ssid != front_in[m].ssid);
                }
            }
            if is_first_of_ssid(list, m) {
                assert forall|j: int| 0 <= j < m implies (#[trigger] front_in[j]).ssid
                    != front_in[m].ssid by {
                    assert(list[j].ssid != list[m].ssid);
                }
            }
        }
        if has_ssid(front_in, list.last().ssid) {
            let w = choose|w: int|
                0 <= w < front_in.len() && (#[trigger] front_in[w]).ssid == list.last().ssid;
            assert(list[w].ssid == list[n].ssid);
            assert(!is_first_of_ssid(list, n));
            assert forall|m: int|
                0 <= m < list.len() && #[trigger] is_first_of_ssid(
                    list,
                    m,
                ) implies front_kept.contains(m) by {
                assert(is_first_of_ssid(front_in, m));
            }
            front_kept
        } else {
            let kept = front_kept.push(n);
            assert forall|j: int| 0 <= j < n implies (#[trigger] list[j]).ssid != list[n].ssid by {
                assert(front_in[j].ssid != list.last().ssid);
            }
            assert(is_first_of_ssid(list, n));
            assert forall|k: int| 0 <= k < kept.len() implies 0 <= #[trigger] kept[k] < list.len()
                && list[kept[k]] == first_per_ssid(list)[k] && is_first_of_ssid(
                list,
                kept[k],
            ) by {
                if k < front_kept.len() {
                    assert(kept[k] == front_kept[k]);
                    assert(is_first_of_ssid(front_in, front_kept[k]));
                }
            }
            assert forall|k: int, l: int| 0 <= k < l < kept.len() implies #[trigger] kept[k]
                < #[trigger] kept[l] by {
                assert(kept[k] == front_kept[k]);
                if l < front_kept.len() {
                    assert(kept[l] == front_kept[l]);
                }
            }
            assert forall|m: int|
                0 <= m < list.len() && #[trigger] is_first_of_ssid(list, m) implies kept.contains(
                m,
            ) by {
                if m == n {
                    assert(kept[kept.len() - 1] == n);
                } else {
                    assert(is_first_of_ssid(front_in, m));
                    assert(front_kept.contains(m));
                    let k = choose|k: int| 0 <= k < front_kept.len() && front_kept[k] == m;
                    assert(kept[k] == m);
                }
            }
            kept
        }
    }
}

/// The list that is shown is the selection of the candidates: for every SSID
/// the candidate that comes before all others of that SSID, and these in the
/// order in which they come before one another. So the connected access
/// point stands for its SSID, else the strongest one, and of equally strong
/// ones the one found first.
pub proof fn lemma_directory_selection(found: Seq<NetworkView>) -> (picks: Seq<int>)
    ensures
        is_selection(found, first_per_ssid(ranked(found)), picks),
{
    let n = found.len() as int;
    let sorted = ranked(found);
    let shown = first_per_ssid(sorted);
    let (place, origin) = lemma_ranked_places(found);
    let kept = lemma_first_per_ssid_places(sorted);
    let picks = Seq::new(kept.len(), |k: int| origin[kept[k]]);
    // a candidate at an earlier place comes before one at a later place
    assert forall|i: int, j: int|
        0 <= i < n && 0 <= j < n && place[i] < place[j] implies comes_before(found, i, j) by {
        lemma_comes_before_is_an_order(found, i, j, i);
        if comes_before(found, j, i) {
            assert(place[j] < place[i]);
        }
    }
    assert forall|k: int| 0 <= k < picks.len() implies is_pick(found, #[trigger] picks[k])
        && found[picks[k]] == shown[k] by {
        let m = kept[k];
        let i = origin[m];
        assert(place[i] == m);
        assert(sorted[place[i]] == found[i]);
        assert forall|j: int|
            0 <= j < n && j != i && (#[trigger] found[j]).ssid == found[i].ssid implies comes_before(
            found,
            i,
            j,
        ) by {
            assert(origin[place[j]] == j);
            assert(sorted[place[j]] == found[j]);
            if place[j] < m {
                assert(sorted[place[j]].ssid != sorted[m].ssid);
            }
        }
    }
    assert forall|k: int, l: int| 0 <= k < l < picks.len() implies comes_before(
        found,
        #[trigger] picks[k],
        #[trigger] picks[l],
    ) by {
        assert(kept[k] < kept[l]);
        assert(place[origin[kept[k]]] == kept[k]);
        assert(place[origin[kept[l]]] == kept[l]);
    }
    assert forall|i: int| #[trigger] is_pick(found, i) implies picks.contains(i) by {
        let m = place[i];
        assert forall|q: int| 0 <= q < m implies (#[trigger] sorted[q]).ssid != sorted[m].ssid by {
            let j = origin[q];
            assert(place[j] == q);
            assert(sorted[place[j]] == found[j]);
            if found[j].ssid == found[i].ssid {
                assert(comes_before(found, i, j));
                assert(place[i] < place[j]);
            }
        }
        assert(is_first_of_ssid(sorted, m));
        assert(kept.contains(m));
        let k = choose|k: int| 0 <= k < kept.len() && kept[k] == m;
        assert(picks[k] == i);
    }
    picks
}

/// There is one selection only: two lists that both are selections of the
/// same candidates are the same list.
pub proof fn lemma_selection_is_unique(
    found: Seq<NetworkView>,
    first: Seq<NetworkView>,
    first_picks: Seq<int>,
    second: Seq<NetworkView>,
    second_picks: Seq<int>,
)
    requires
        is_selection(found, first, first_picks),
        is_selection(found, second, second_picks),
    ensures
        first == second,
        first_picks == second_picks,
{
    lemma_same_picks(found, first, first_picks, second, second_picks, first_picks.len() as int);
    lemma_same_picks(found, second, second_picks, first, first_picks, second_picks.len() as int);
    lemma_not_longer(found, first, first_picks, second, second_picks);
    lemma_not_longer(found, second, second_picks, first, first_picks);
    assert(first_picks =~= second_picks);
    assert forall|k: int| 0 <= k < first.len() implies first[k] == second[k] by {
        assert(found[first_picks[k]] == first[k]);
        assert(found[second_picks[k]] == second[k]);
    }
    assert(first =~= second);
}

/// Two selections of the same candidates agree on their first `upto` picks.
proof fn lemma_same_picks(
    found: Seq<NetworkView>,
    first: Seq<NetworkView>,
    first_picks: Seq<int>,
    second: Seq<NetworkView>,
    second_picks: Seq<int>,
    upto: int,
)
    requires
        is_selection(found, first, first_picks),
        is_selection(found, second, second_picks),
        0 <= upto <= first_picks.len(),
    ensures
        forall|k: int|
            0 <= k < upto && k < second_picks.len() ==> first_picks[k] == second_picks[k],
    decreases upto,
{
    if upto > 0 {
        lemma_same_picks(found, first, first_picks, second, second_picks, upto - 1);
        let k = upto - 1;
        if k < second_picks.len() {
            let a = first_picks[k];
            let b = second_picks[k];
            assert(is_pick(found, a));
            assert(is_pick(found, b));
            assert(second_picks.contains(a));
            assert(first_picks.contains(b));
            let l = choose|l: int| 0 <= l < second_picks.len() && second_picks[l] == a;
            let m = choose|m: int| 0 <= m < first_picks.len() && first_picks[m] == b;
            lemma_comes_before_is_an_order(found, a, b, a);
            lemma_comes_before_is_an_order(found, b, a, b);
            if l < k {
                assert(first_picks[l] == second_picks[l]);
                assert(comes_before(found, first_picks[l], first_picks[k]));
            } else if l > k {
                assert(comes_before(found, second_picks[k], second_picks[l]));
                if m < k {
                    assert(first_picks[m] == second_picks[m]);
                    assert(comes_before(found, second_picks[m], second_picks[k]));
                } else if m > k {
                    assert(comes_before(found, first_picks[k], first_picks[m]));
                }
            }
        }
    }
}

/// Of two selections of the same candidates that agree as far as both go,
/// neither is longer than the other: the longer one would hold a pick that
/// the shorter one leaves out.
proof fn lemma_not_longer(
    found: Seq<NetworkView>,
    first: Seq<NetworkView>,
    first_picks: Seq<int>,
    second: Seq<NetworkView>,
    second_picks: Seq<int>,
)
    requires
        is_selection(found, first, first_picks),
        is_selection(found, second, second_picks),
        forall|k: int|
            0 <= k < first_picks.len() && k < second_picks.len() ==> first_picks[k]
                == second_picks[k],
    ensures
        second_picks.len() <= first_picks.len(),
{
    if first_picks.len() < second_picks.len() {
        let extra = second_picks[first_picks.len() as int];
        assert(is_pick(found, extra));
        assert(first_picks.contains(extra));
        let k = choose|k: int| 0 <= k < first_picks.len() && first_picks[k] == extra;
        assert(second_picks[k] == extra);
        assert(comes_before(found, second_picks[k], second_picks[first_picks.len() as int]));
        lemma_comes_before_is_an_order(found, extra, extra, extra);
    }
}

} // verus!
