//! Security category of an access point, derived from its capability flags.

use vstd::prelude::*;

verus! {

/// Privacy bit of an access point's general flags (`NM_802_11_AP_FLAGS_PRIVACY`).
pub const AP_FLAGS_PRIVACY: u32 = 0x1;

/// 802.1X key-management bit of the WPA and RSN flags
/// (`NM_802_11_AP_SEC_KEY_MGMT_802_1X`).
pub const AP_SEC_KEY_MGMT_802_1X: u32 = 0x200;

/// SAE key-management bit of the RSN flags (`NM_802_11_AP_SEC_KEY_MGMT_SAE`).
pub const AP_SEC_KEY_MGMT_SAE: u32 = 0x400;

/// How an access point protects its traffic.
#[derive(Clone, Copy, Debug, PartialEq, Eq, Hash, Structural)]
pub enum Security {
    Open,
    Wep,
    Wpa,
    Wpa2,
    Wpa3,
    Enterprise,
}

impl Security {
    /// The name of the category as it is shown.
    pub open spec fn label_text(self) -> Seq<char> {
        match self {
            Security::Open => "Open"@,
            Security::Wep => "WEP"@,
            Security::Wpa => "WPA"@,
            Security::Wpa2 => "WPA2"@,
            Security::Wpa3 => "WPA3"@,
            Security::Enterprise => "Enterprise"@,
        }
    }

    /// The name of the category as it is shown.
    pub fn label(&self) -> (text: String)
        ensures
            text@ == self.label_text(),
    {
        match self {
            Security::Open => "Open".to_owned(),
            Security::Wep => "WEP".to_owned(),
            Security::Wpa => "WPA".to_owned(),
            Security::Wpa2 => "WPA2".to_owned(),
            Security::Wpa3 => "WPA3".to_owned(),
            Security::Enterprise => "Enterprise".to_owned(),
        }
    }
}

/// Whether either flag word announces 802.1X key management.
pub open spec fn has_enterprise(wpa_flags: u32, rsn_flags: u32) -> bool {
    (wpa_flags & AP_SEC_KEY_MGMT_802_1X) != 0 || (rsn_flags & AP_SEC_KEY_MGMT_802_1X) != 0
}

/// Whether the RSN flags announce SAE key management.
pub open spec fn has_sae(rsn_flags: u32) -> bool {
    (rsn_flags & AP_SEC_KEY_MGMT_SAE) != 0
}

/// Whether the general flags carry the privacy bit.
pub open spec fn has_privacy(flags: u32) -> bool {
    (flags & AP_FLAGS_PRIVACY) != 0
}

/// The category of an access point with the given flag words. The first
/// matching rule wins.
pub open spec fn classify(flags: u32, wpa_flags: u32, rsn_flags: u32) -> Security {
    if has_enterprise(wpa_flags, rsn_flags) {
        Security::Enterprise
    } else if has_sae(rsn_flags) && rsn_flags != 0 {
        Security::Wpa3
    } else if rsn_flags != 0 {
        Security::Wpa2
    } else if wpa_flags != 0 {
        Security::Wpa
    } else if has_privacy(flags) {
        Security::Wep
    } else {
        Security::Open
    }
}

/// Classifies an access point by its three flag words.
pub fn security_from_flags(flags: u32, wpa_flags: u32, rsn_flags: u32) -> (category: Security)
    ensures
        category == classify(flags, wpa_flags, rsn_flags),
{
    let privacy = flags & AP_FLAGS_PRIVACY != 0;
    let has_wpa = wpa_flags != 0;
    let has_rsn = rsn_flags != 0;
    let sae = rsn_flags & AP_SEC_KEY_MGMT_SAE != 0;
    let enterprise = (wpa_flags & AP_SEC_KEY_MGMT_802_1X != 0) || (rsn_flags
        & AP_SEC_KEY_MGMT_802_1X != 0);
    if enterprise {
        Security::Enterprise
    } else if sae && has_rsn {
        Security::Wpa3
    } else if has_rsn {
        Security::Wpa2
    } else if has_wpa {
        Security::Wpa
    } else if privacy {
        Security::Wep
    } else {
        Security::Open
    }
}

/// Each category is reported exactly when its rule matches and no earlier
/// rule does: 802.1X beats everything, then SAE, then any RSN flag, then any
/// WPA flag, then the privacy bit.
pub proof fn lemma_classify_precedence(flags: u32, wpa_flags: u32, rsn_flags: u32)
    ensures
        classify(flags, wpa_flags, rsn_flags) == Security::Enterprise <==> has_enterprise(
            wpa_flags,
            rsn_flags,
        ),
        classify(flags, wpa_flags, rsn_flags) == Security::Wpa3 <==> !has_enterprise(
            wpa_flags,
            rsn_flags,
        ) && has_sae(rsn_flags),
        classify(flags, wpa_flags, rsn_flags) == Security::Wpa2 <==> !has_enterprise(
            wpa_flags,
            rsn_flags,
        ) && !has_sae(rsn_flags) && rsn_flags != 0,
        classify(flags, wpa_flags, rsn_flags) == Security::Wpa <==> !has_enterprise(
            wpa_flags,
            rsn_flags,
        ) && rsn_flags == 0 && wpa_flags != 0,
        classify(flags, wpa_flags, rsn_flags) == Security::Wep <==> rsn_flags == 0 && wpa_flags
            == 0 && has_privacy(flags),
        classify(flags, wpa_flags, rsn_flags) == Security::Open <==> rsn_flags == 0 && wpa_flags
            == 0 && !has_privacy(flags),
{
    assert((rsn_flags & 0x400) != 0 ==> rsn_flags != 0) by (bit_vector);
    assert(rsn_flags == 0 ==> (rsn_flags & 0x200) == 0) by (bit_vector);
    assert(rsn_flags == 0 ==> (rsn_flags & 0x400) == 0) by (bit_vector);
    assert(wpa_flags == 0 ==> (wpa_flags & 0x200) == 0) by (bit_vector);
}

} // verus!
