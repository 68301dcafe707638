//! One visible network, as the directory reports it.

use vstd::prelude::*;
use crate::security::Security;

verus! {

/// One distinct SSID that a device can see.
#[derive(Debug, PartialEq, Eq)]
pub struct Network {
    pub ssid: String,
    /// Signal strength in percent.
    pub strength: u8,
    pub security: Security,
    /// Whether this is the network the device is connected to right now.
    pub is_connected: bool,
    /// Whether the service holds a saved profile for this SSID.
    pub is_saved: bool,
    /// Object path of the access point that stands for the SSID.
    pub ap_path: String,
    /// Object path of the device that sees it.
    pub device_path: String,
}

/// The view of `Network`: its content as mathematical values.
pub struct NetworkView {
    pub ssid: Seq<char>,
    pub strength: u8,
    pub security: Security,
    pub is_connected: bool,
    pub is_saved: bool,
    pub ap_path: Seq<char>,
    pub device_path: Seq<char>,
}

impl View for Network {
    type V = NetworkView;

    open spec fn view(&self) -> NetworkView {
        NetworkView {
            ssid: self.ssid@,
            strength: self.strength,
            security: self.security,
            is_connected: self.is_connected,
            is_saved: self.is_saved,
            ap_path: self.ap_path@,
            device_path: self.device_path@,
        }
    }
}

impl Clone for Network {
    fn clone(&self) -> (copy: Self)
        ensures
            copy == *self,
    {
        Network {
            ssid: self.ssid.clone(),
            strength: self.strength,
            security: self.security,
            is_connected: self.is_connected,
            is_saved: self.is_saved,
            ap_path: self.ap_path.clone(),
            device_path: self.device_path.clone(),
        }
    }
}

/// The views of a list of networks, in order.
pub open spec fn network_views(networks: Seq<Network>) -> Seq<NetworkView> {
    networks.map_values(|n: Network| n@)
}

/// Position of the first network with the given SSID, if there is one.
pub open spec fn index_of_ssid(networks: Seq<NetworkView>, ssid: Seq<char>) -> Option<nat>
    decreases networks.len(),
{
    if networks.len() == 0 {
        None
    } else {
        match index_of_ssid(networks.drop_last(), ssid) {
            Some(i) => Some(i),
            None => if networks.last().ssid == ssid {
                Some((networks.len() - 1) as nat)
            } else {
                None
            },
        }
    }
}

/// `index_of_ssid` finds the first match, and finds none only where there is
/// none.
pub proof fn lemma_index_of_ssid(networks: Seq<NetworkView>, ssid: Seq<char>)
    ensures
        match index_of_ssid(networks, ssid) {
            Some(i) => i < networks.len() && networks[i as int].ssid == ssid && forall|j: int|
                0 <= j < i ==> networks[j].ssid != ssid,
            None => forall|j: int| 0 <= j < networks.len() ==> networks[j].ssid != ssid,
        },
    decreases networks.len(),
{
    if networks.len() > 0 {
        let front = networks.drop_last();
        lemma_index_of_ssid(front, ssid);
        assert(forall|j: int| 0 <= j < front.len() ==> front[j] == networks[j]);
    }
}

/// Finds the first network with the given SSID.
pub fn find_network(networks: &Vec<Network>, ssid: &String) -> (found: Option<usize>)
    ensures
        match found {
            Some(i) => i < networks.len() && index_of_ssid(network_views(networks@), ssid@)
                == Some(i as nat),
            None => index_of_ssid(network_views(networks@), ssid@) is None,
        },
{
    let mut i: usize = 0;
    while i < networks.len()
        invariant
            i <= networks.len(),
            forall|j: int| 0 <= j < i ==> network_views(networks@)[j].ssid != ssid@,
        decreases networks.len() - i,
    {
        if networks[i].ssid == *ssid {
            proof {
                let views = network_views(networks@);
                lemma_index_of_ssid(views, ssid@);
                assert(views[i as int].ssid == ssid@);
                assert(forall|j: int| 0 <= j < i ==> views[j].ssid != ssid@);
            }
            return Some(i);
        }
        i += 1;
    }
    proof {
        let views = network_views(networks@);
        lemma_index_of_ssid(views, ssid@);
        assert(forall|j: int| 0 <= j < views.len() ==> views[j].ssid != ssid@);
    }
    None
}

/// Copies a list of networks.
pub fn clone_networks(networks: &Vec<Network>) -> (copy: Vec<Network>)
    ensures
        copy@ == networks@,
{
    let mut copy: Vec<Network> = Vec::new();
    let mut i: usize = 0;
    while i < networks.len()
        invariant
            i <= networks.len(),
            copy@ == networks@.take(i as int),
        decreases networks.len() - i,
    {
        copy.push(networks[i].clone());
        proof {
            assert(copy@ =~= networks@.take(i + 1));
        }
        i += 1;
    }
    proof {
        assert(networks@.take(networks.len() as int) =~= networks@);
    }
    copy
}

} // verus!
