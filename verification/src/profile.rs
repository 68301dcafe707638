//! Saved connection profiles: what is read of them, and the settings of a
//! new one.

use vstd::prelude::*;
use vstd::utf8::encode_utf8;
use vstd::string::StrSliceExecFns;
use crate::error::{NmError, NmErrorView};
use crate::network::{Network, NetworkView};
use crate::security::Security;
use crate::text::{contains_string, decode_lossy, string_views, utf8_lossy};

verus! {

/// The connection type of a Wi-Fi profile, and the name of its section.
pub open spec fn wireless_type() -> Seq<char> {
    "802-11-wireless"@
}

/// The value of one entry of a profile.
#[derive(Debug, PartialEq, Eq)]
pub enum SettingValue {
    Text(String),
    Bytes(Vec<u8>),
    /// A value of a kind that nothing here reads.
    Other,
}

/// The view of `SettingValue`: its content as mathematical values.
pub enum SettingValueView {
    Text(Seq<char>),
    Bytes(Seq<u8>),
    Other,
}

impl View for SettingValue {
    type V = SettingValueView;

    open spec fn view(&self) -> SettingValueView {
        match *self {
            SettingValue::Text(text) => SettingValueView::Text(text@),
            SettingValue::Bytes(bytes) => SettingValueView::Bytes(bytes@),
            SettingValue::Other => SettingValueView::Other,
        }
    }
}

/// One entry of a section: its key and its value.
#[derive(Debug, PartialEq, Eq)]
pub struct Setting {
    pub key: String,
    pub value: SettingValue,
}

/// The view of `Setting`: its content as mathematical values.
pub struct SettingView {
    pub key: Seq<char>,
    pub value: SettingValueView,
}

impl View for Setting {
    type V = SettingView;

    open spec fn view(&self) -> SettingView {
        SettingView { key: self.key@, value: self.value@ }
    }
}

/// The views of the entries of a section, in order.
pub open spec fn setting_views(entries: Seq<Setting>) -> Seq<SettingView> {
    entries.map_values(|e: Setting| e@)
}

/// One named section of a profile.
#[derive(Debug, PartialEq, Eq)]
pub struct Section {
    pub name: String,
    pub entries: Vec<Setting>,
}

/// The view of `Section`: its content as mathematical values.
pub struct SectionView {
    pub name: Seq<char>,
    pub entries: Seq<SettingView>,
}

impl View for Section {
    type V = SectionView;

    open spec fn view(&self) -> SectionView {
        SectionView { name: self.name@, entries: setting_views(self.entries@) }
    }
}

/// The views of the sections of a profile, in order.
pub open spec fn section_views(sections: Seq<Section>) -> Seq<SectionView> {
    sections.map_values(|s: Section| s@)
}

/// Position of the first section with the given name, if there is one.
pub open spec fn index_of_section(sections: Seq<SectionView>, name: Seq<char>) -> Option<int>
    decreases sections.len(),
{
    if sections.len() == 0 {
        None
    } else {
        match index_of_section(sections.drop_last(), name) {
            Some(i) => Some(i),
            None => if sections.last().name == name {
                Some(sections.len() - 1)
            } else {
                None
            },
        }
    }
}

/// `index_of_section` finds the first section of that name, and finds none
/// only where there is none.
pub proof fn lemma_index_of_section(sections: Seq<SectionView>, name: Seq<char>)
    ensures
        match index_of_section(sections, name) {
            Some(i) => 0 <= i < sections.len() && sections[i].name == name && forall|j: int|
                0 <= j < i ==> sections[j].name != name,
            None => forall|j: int| 0 <= j < sections.len() ==> sections[j].name != name,
        },
    decreases sections.len(),
{
    if sections.len() > 0 {
        let front = sections.drop_last();
        lemma_index_of_section(front, name);
        assert(forall|j: int| 0 <= j < front.len() ==> front[j] == sections[j]);
    }
}

/// Position of the first entry with the given key, if there is one.
pub open spec fn index_of_entry(entries: Seq<SettingView>, key: Seq<char>) -> Option<int>
    decreases entries.len(),
{
    if entries.len() == 0 {
        None
    } else {
        match index_of_entry(entries.drop_last(), key) {
            Some(i) => Some(i),
            None => if entries.last().key == key {
                Some(entries.len() - 1)
            } else {
                None
            },
        }
    }
}

/// `index_of_entry` finds the first entry with that key, and finds none only
/// where there is none.
pub proof fn lemma_index_of_entry(entries: Seq<SettingView>, key: Seq<char>)
    ensures
        match index_of_entry(entries, key) {
            Some(i) => 0 <= i < entries.len() && entries[i].key == key && forall|j: int|
                0 <= j < i ==> entries[j].key != key,
            None => forall|j: int| 0 <= j < entries.len() ==> entries[j].key != key,
        },
    decreases entries.len(),
{
    if entries.len() > 0 {
        let front = entries.drop_last();
        lemma_index_of_entry(front, key);
        assert(forall|j: int| 0 <= j < front.len() ==> front[j] == entries[j]);
    }
}

/// The value that the settings hold under `key` in the section `name`: that
/// of the first such entry of the first such section.
pub open spec fn entry_of(sections: Seq<SectionView>, name: Seq<char>, key: Seq<char>) -> Option<
    SettingValueView,
> {
    match index_of_section(sections, name) {
        Some(i) => match index_of_entry(sections[i].entries, key) {
            Some(j) => Some(sections[i].entries[j].value),
            None => None,
        },
        None => None,
    }
}

/// Finds the first section with the given name.
fn find_section(sections: &Vec<Section>, name: &String) -> (found: Option<usize>)
    ensures
        match found {
            Some(i) => i < sections.len() && index_of_section(section_views(sections@), name@)
                == Some(i as int),
            None => index_of_section(section_views(sections@), name@) is None,
        },
{
    let mut i: usize = 0;
    while i < sections.len()
        invariant
            i <= sections.len(),
            forall|j: int| 0 <= j < i ==> section_views(sections@)[j].name != name@,
        decreases sections.len() - i,
    {
        if sections[i].name == *name {
            proof {
                let views = section_views(sections@);
                lemma_index_of_section(views, name@);
                assert(views[i as int].name == name@);
            }
            return Some(i);
        }
        i += 1;
    }
    proof {
        lemma_index_of_section(section_views(sections@), name@);
    }
    None
}

/// Finds the first entry with the given key.
fn find_entry(entries: &Vec<Setting>, key: &String) -> (found: Option<usize>)
    ensures
        match found {
            Some(i) => i < entries.len() && index_of_entry(setting_views(entries@), key@) == Some(
                i as int,
            ),
            None => index_of_entry(setting_views(entries@), key@) is None,
        },
{
    let mut i: usize = 0;
    while i < entries.len()
        invariant
            i <= entries.len(),
            forall|j: int| 0 <= j < i ==> setting_views(entries@)[j].key != key@,
        decreases entries.len() - i,
    {
        if entries[i].key == *key {
            proof {
                let views = setting_views(entries@);
                lemma_index_of_entry(views, key@);
                assert(views[i as int].key == key@);
            }
            return Some(i);
        }
        i += 1;
    }
    proof {
        lemma_index_of_entry(setting_views(entries@), key@);
    }
    None
}

/// Where the settings hold a value under `key` in the section `name`: the
/// positions of the section and of the entry.
fn find_value(sections: &Vec<Section>, name: &str, key: &str) -> (found: Option<(usize, usize)>)
    ensures
        match found {
            Some((i, j)) => i < sections.len() && j < sections[i as int].entries.len() && entry_of(
                section_views(sections@),
                name@,
                key@,
            ) == Some(sections[i as int].entries[j as int].value@),
            None => entry_of(section_views(sections@), name@, key@) is None,
        },
{
    match find_section(sections, &name.to_owned()) {
        Some(i) => {
            assert(section_views(sections@)[i as int].entries == setting_views(
                sections[i as int].entries@,
            ));
            match find_entry(&sections[i].entries, &key.to_owned()) {
                Some(j) => {
                    assert(setting_views(sections[i as int].entries@)[j as int]
                        == sections[i as int].entries[j as int]@);
                    Some((i, j))
                },
                None => None,
            }
        },
        None => None,
    }
}

/// The SSID that the settings of a profile are for: the `ssid` entry of the
/// section `802-11-wireless`, decoded, where the `type` entry of the section
/// `connection` names the wireless type. Settings whose type is missing, is
/// no text or names another type are for none; so are settings whose SSID is
/// missing, is no byte string or decodes to nothing.
pub open spec fn wifi_ssid(settings: Seq<SectionView>) -> Option<Seq<char>> {
    match (
        entry_of(settings, "connection"@, "type"@),
        entry_of(settings, wireless_type(), "ssid"@),
    ) {
        (Some(SettingValueView::Text(kind)), Some(SettingValueView::Bytes(bytes))) => if kind
            == wireless_type() && utf8_lossy(bytes).len() > 0 {
            Some(utf8_lossy(bytes))
        } else {
            None
        },
        _ => None,
    }
}

/// What was read of a saved profile.
#[derive(Debug)]
pub enum ProfileReading {
    /// Its settings.
    Settings(Vec<Section>),
    /// The profile was reached, but its settings could not be read.
    Unreadable,
    /// The profile could not be reached. Carries what the transport said.
    Unreachable(String),
}

/// The view of `ProfileReading`: its content as mathematical values.
pub enum ProfileReadingView {
    Settings(Seq<SectionView>),
    Unreadable,
    Unreachable(Seq<char>),
}

impl View for ProfileReading {
    type V = ProfileReadingView;

    open spec fn view(&self) -> ProfileReadingView {
        match *self {
            ProfileReading::Settings(sections) => ProfileReadingView::Settings(
                section_views(sections@),
            ),
            ProfileReading::Unreadable => ProfileReadingView::Unreadable,
            ProfileReading::Unreachable(said) => ProfileReadingView::Unreachable(said@),
        }
    }
}

/// One saved profile: its object path, and what was read of it.
#[derive(Debug)]
pub struct SavedProfile {
    pub path: String,
    pub reading: ProfileReading,
}

/// The view of `SavedProfile`: its content as mathematical values.
pub struct SavedProfileView {
    pub path: Seq<char>,
    pub reading: ProfileReadingView,
}

impl View for SavedProfile {
    type V = SavedProfileView;

    open spec fn view(&self) -> SavedProfileView {
        SavedProfileView { path: self.path@, reading: self.reading@ }
    }
}

/// The views of a list of saved profiles, in order.
pub open spec fn profile_views(profiles: Seq<SavedProfile>) -> Seq<SavedProfileView> {
    profiles.map_values(|p: SavedProfile| p@)
}

/// The SSID that a saved profile is for, if its settings were read and are
/// those of a Wi-Fi profile with a name.
pub open spec fn profile_ssid(profile: SavedProfileView) -> Option<Seq<char>> {
    match profile.reading {
        ProfileReadingView::Settings(settings) => wifi_ssid(settings),
        _ => None,
    }
}

/// Whether a saved profile is one for the given SSID.
pub open spec fn profile_is_for(profile: SavedProfileView, ssid: Seq<char>) -> bool {
    profile_ssid(profile) == Some(ssid)
}

/// The SSID that the settings of a profile are for, if they are those of a
/// Wi-Fi profile with a name.
pub fn get_wifi_ssid(settings: &Vec<Section>) -> (ssid: Option<String>)
    ensures
        match ssid {
            Some(text) => wifi_ssid(section_views(settings@)) == Some(text@),
            None => wifi_ssid(section_views(settings@)) is None,
        },
{
    let kind = find_value(settings, "connection", "type");
    let name = find_value(settings, "802-11-wireless", "ssid");
    let wireless = "802-11-wireless".to_owned();
    match kind {
        Some((i, j)) => match &settings[i].entries[j].value {
            SettingValue::Text(text) => {
                if !(*text == wireless) {
                    return None;
                }
            },
            _ => {
                return None;
            },
        },
        None => {
            return None;
        },
    }
    match name {
        Some((i, j)) => match &settings[i].entries[j].value {
            SettingValue::Bytes(bytes) => {
                let text = decode_lossy(bytes);
                if text.as_str().is_empty() {
                    None
                } else {
                    Some(text)
                }
            },
            _ => None,
        },
        None => None,
    }
}

/// The SSID that a saved profile is for.
fn ssid_of_profile(profile: &SavedProfile) -> (ssid: Option<String>)
    ensures
        match ssid {
            Some(text) => profile_ssid(profile@) == Some(text@),
            None => profile_ssid(profile@) is None,
        },
{
    match &profile.reading {
        ProfileReading::Settings(settings) => get_wifi_ssid(settings),
        _ => None,
    }
}

/// Whether a saved profile is one for the given SSID.
fn is_profile_for(profile: &SavedProfile, ssid: &String) -> (yes: bool)
    ensures
        yes == profile_is_for(profile@, ssid@),
{
    match ssid_of_profile(profile) {
        Some(text) => text == *ssid,
        None => false,
    }
}

/// Whether some profile of the list is one for the given SSID.
pub open spec fn is_saved_ssid(profiles: Seq<SavedProfileView>, ssid: Seq<char>) -> bool {
    exists|i: int| 0 <= i < profiles.len() && profile_is_for(#[trigger] profiles[i], ssid)
}

/// The SSIDs that the saved profiles are for, each once, in the order in
/// which the profiles first name them.
pub open spec fn saved_ssids(profiles: Seq<SavedProfileView>) -> Seq<Seq<char>>
    decreases profiles.len(),
{
    if profiles.len() == 0 {
        Seq::empty()
    } else {
        let front = saved_ssids(profiles.drop_last());
        match profile_ssid(profiles.last()) {
            Some(ssid) => if front.contains(ssid) {
                front
            } else {
                front.push(ssid)
            },
            None => front,
        }
    }
}

/// The SSIDs that the saved profiles are for, each once, in the order in
/// which the profiles first name them.
pub fn saved_wifi_ssids(profiles: &Vec<SavedProfile>) -> (ssids: Vec<String>)
    ensures
        string_views(ssids@) == saved_ssids(profile_views(profiles@)),
        string_views(ssids@).no_duplicates(),
        forall|s: Seq<char>|
            string_views(ssids@).contains(s) <==> is_saved_ssid(profile_views(profiles@), s),
{
    let mut ssids: Vec<String> = Vec::new();
    let mut i: usize = 0;
    proof {
        assert(string_views(ssids@) =~= saved_ssids(profile_views(profiles@).take(0)));
    }
    while i < profiles.len()
        invariant
            i <= profiles.len(),
            string_views(ssids@) == saved_ssids(profile_views(profiles@).take(i as int)),
            string_views(ssids@).no_duplicates(),
            forall|s: Seq<char>|
                string_views(ssids@).contains(s) <==> is_saved_ssid(
                    profile_views(profiles@).take(i as int),
                    s,
                ),
        decreases profiles.len() - i,
    {
        let ghost before = string_views(ssids@);
        let ghost seen = profile_views(profiles@).take(i as int);
        let ghost next = profile_views(profiles@).take(i + 1);
        proof {
            assert(next.drop_last() =~= seen);
            assert(next.last() == profiles[i as int]@);
        }
        let found = ssid_of_profile(&profiles[i]);
        match found {
            Some(text) => {
                if !contains_string(&ssids, &text) {
                    let ghost t = text@;
                    ssids.push(text);
                    proof {
                        let after = string_views(ssids@);
                        assert(after =~= before.push(t));
                        assert forall|s: Seq<char>| after.contains(s) <==> is_saved_ssid(
                            next,
                            s,
                        ) by {
                            lemma_saved_step(seen, next, s);
                            if s == t {
                                assert(after[after.len() - 1] == t);
                            } else if before.contains(s) {
                                let k = choose|k: int| 0 <= k < before.len() && before[k] == s;
                                assert(after[k] == s);
                            } else if after.contains(s) {
                                let k = choose|k: int| 0 <= k < after.len() && after[k] == s;
                                assert(before[k] == s);
                            }
                        }
                    }
                } else {
                    proof {
                        assert forall|s: Seq<char>| before.contains(s) <==> is_saved_ssid(
                            next,
                            s,
                        ) by {
                            lemma_saved_step(seen, next, s);
                        }
                    }
                }
            },
            None => {
                proof {
                    assert forall|s: Seq<char>| before.contains(s) <==> is_saved_ssid(next, s) by {
                        lemma_saved_step(seen, next, s);
                    }
                }
            },
        }
        i += 1;
    }
    proof {
        assert(profile_views(profiles@).take(profiles.len() as int) =~= profile_views(profiles@));
    }
    ssids
}

/// One more profile adds its own SSID to those that are saved, and nothing
/// else.
proof fn lemma_saved_step(seen: Seq<SavedProfileView>, next: Seq<SavedProfileView>, s: Seq<char>)
    requires
        next.len() > 0,
        next.drop_last() == seen,
    ensures
        is_saved_ssid(next, s) <==> is_saved_ssid(seen, s) || profile_is_for(next.last(), s),
{
    if is_saved_ssid(seen, s) {
        let k = choose|k: int| 0 <= k < seen.len() && profile_is_for(#[trigger] seen[k], s);
        assert(next[k] == seen[k]);
    }
    if profile_is_for(next.last(), s) {
        assert(next[next.len() - 1] == next.last());
    }
    if is_saved_ssid(next, s) {
        let k = choose|k: int| 0 <= k < next.len() && profile_is_for(#[trigger] next[k], s);
        if k < seen.len() {
            assert(seen[k] == next[k]);
        }
    }
}

/// Whether the search for a profile of the SSID ends at this profile: it is
/// one for the SSID, or it could not be reached.
pub open spec fn ends_search(profile: SavedProfileView, ssid: Seq<char>) -> bool {
    profile_is_for(profile, ssid) || profile.reading is Unreachable
}

/// Position of the first profile at which the search for the SSID ends, if
/// there is one.
pub open spec fn index_of_profile(profiles: Seq<SavedProfileView>, ssid: Seq<char>) -> Option<int>
    decreases profiles.len(),
{
    if profiles.len() == 0 {
        None
    } else {
        match index_of_profile(profiles.drop_last(), ssid) {
            Some(i) => Some(i),
            None => if ends_search(profiles.last(), ssid) {
                Some(profiles.len() - 1)
            } else {
                None
            },
        }
    }
}

/// `index_of_profile` finds the first profile at which the search ends, and
/// finds none only where every profile was reached and none is for the SSID.
pub proof fn lemma_index_of_profile(profiles: Seq<SavedProfileView>, ssid: Seq<char>)
    ensures
        match index_of_profile(profiles, ssid) {
            Some(i) => 0 <= i < profiles.len() && ends_search(profiles[i], ssid) && forall|
                j: int,
            |
                0 <= j < i ==> !ends_search(#[trigger] profiles[j], ssid),
            None => !is_saved_ssid(profiles, ssid) && forall|j: int|
                0 <= j < profiles.len() ==> !ends_search(#[trigger] profiles[j], ssid),
        },
    decreases profiles.len(),
{
    if profiles.len() > 0 {
        let front = profiles.drop_last();
        lemma_index_of_profile(front, ssid);
        assert(forall|j: int| 0 <= j < front.len() ==> front[j] == profiles[j]);
        if index_of_profile(profiles, ssid) is None {
            assert forall|j: int| 0 <= j < profiles.len() implies !ends_search(
                #[trigger] profiles[j],
                ssid,
            ) by {
                if j < front.len() {
                    assert(!ends_search(front[j], ssid));
                }
            }
        }
    }
}

/// The saved profile to use for the SSID: the path of the first profile that
/// is one for it. There is none where no profile is for the SSID, and the
/// search fails where a profile that could not be reached stands before the
/// first one that is.
pub open spec fn saved_connection(profiles: Seq<SavedProfileView>, ssid: Seq<char>) -> Result<
    Option<Seq<char>>,
    Seq<char>,
> {
    match index_of_profile(profiles, ssid) {
        Some(i) => match profiles[i].reading {
            ProfileReadingView::Unreachable(said) => Err(said),
            _ => Ok(Some(profiles[i].path)),
        },
        None => Ok(None),
    }
}

/// What the search for a saved profile has found, as a view.
pub open spec fn found_view(found: Result<Option<String>, NmError>) -> Result<
    Option<Seq<char>>,
    NmErrorView,
> {
    match found {
        Ok(Some(path)) => Ok(Some(path@)),
        Ok(None) => Ok(None),
        Err(e) => Err(e@),
    }
}

/// Path of the first saved profile that is one for the given SSID. Fails with
/// `ServiceUnavailable` where a profile that could not be reached stands
/// before it.
pub fn find_saved_connection(profiles: &Vec<SavedProfile>, ssid: &String) -> (found: Result<
    Option<String>,
    NmError,
>)
    ensures
        found_view(found) == match saved_connection(profile_views(profiles@), ssid@) {
            Ok(path) => Ok(path),
            Err(said) => Err(NmErrorView::ServiceUnavailable(said)),
        },
{
    let mut i: usize = 0;
    while i < profiles.len()
        invariant
            i <= profiles.len(),
            forall|j: int|
                0 <= j < i ==> !ends_search(#[trigger] profile_views(profiles@)[j], ssid@),
        decreases profiles.len() - i,
    {
        proof {
            lemma_index_of_profile(profile_views(profiles@), ssid@);
        }
        match &profiles[i].reading {
            ProfileReading::Unreachable(said) => {
                assert(ends_search(profile_views(profiles@)[i as int], ssid@));
                return Err(NmError::ServiceUnavailable(said.clone()));
            },
            _ => {},
        }
        if is_profile_for(&profiles[i], ssid) {
            let path = profiles[i].path.clone();
            assert(ends_search(profile_views(profiles@)[i as int], ssid@));
            return Ok(Some(path));
        }
        assert(!ends_search(profile_views(profiles@)[i as int], ssid@));
        i += 1;
    }
    proof {
        lemma_index_of_profile(profile_views(profiles@), ssid@);
    }
    Ok(None)
}

/// An entry that holds a text.
pub open spec fn text_entry(key: Seq<char>, text: Seq<char>) -> SettingView {
    SettingView { key, value: SettingValueView::Text(text) }
}

/// The key management that a new profile for a network of the given
/// category asks for: `sae` for WPA3, `wpa-psk` for every other one.
pub open spec fn key_management(security: Security) -> Seq<char> {
    if security == Security::Wpa3 {
        "sae"@
    } else {
        "wpa-psk"@
    }
}

/// The section that every new profile starts with: the wireless connection
/// type, and the SSID as the profile's name.
pub open spec fn connection_section(network: NetworkView) -> SectionView {
    SectionView {
        name: "connection"@,
        entries: seq![text_entry("type"@, wireless_type()), text_entry("id"@, network.ssid)],
    }
}

/// The wireless section of a new profile: the SSID as bytes, in
/// infrastructure mode.
pub open spec fn wireless_section(network: NetworkView) -> SectionView {
    SectionView {
        name: wireless_type(),
        entries: seq![
            SettingView { key: "ssid"@, value: SettingValueView::Bytes(encode_utf8(network.ssid)) },
            text_entry("mode"@, "infrastructure"@),
        ],
    }
}

/// The security section of a new profile for a protected network: the key
/// management, and the password as the pre-shared key.
pub open spec fn security_section(network: NetworkView, password: Seq<char>) -> SectionView {
    SectionView {
        name: "802-11-wireless-security"@,
        entries: seq![
            text_entry("key-mgmt"@, key_management(network.security)),
            text_entry("psk"@, password),
        ],
    }
}

/// The settings of a new profile for a network: the connection and the
/// wireless section, and the security section unless the network is open.
pub open spec fn profile_for(network: NetworkView, password: Seq<char>) -> Seq<SectionView> {
    if network.security == Security::Open {
        seq![connection_section(network), wireless_section(network)]
    } else {
        seq![
            connection_section(network),
            wireless_section(network),
            security_section(network, password),
        ]
    }
}

fn text_setting(key: &str, text: String) -> (entry: Setting)
    ensures
        entry@ == text_entry(key@, text@),
{
    Setting { key: key.to_owned(), value: SettingValue::Text(text) }
}

fn section_of_two(name: &str, first: Setting, second: Setting) -> (section: Section)
    ensures
        section@ == (SectionView { name: name@, entries: seq![first@, second@] }),
{
    let mut entries: Vec<Setting> = Vec::new();
    entries.push(first);
    entries.push(second);
    proof {
        assert(setting_views(entries@) =~= seq![first@, second@]);
    }
    Section { name: name.to_owned(), entries }
}

/// Builds the settings of a new profile for a network.
pub fn new_profile(network: &Network, password: &str) -> (sections: Vec<Section>)
    ensures
        section_views(sections@) == profile_for(network@, password@),
{
    let mut sections: Vec<Section> = Vec::new();
    let connection = section_of_two(
        "connection",
        text_setting("type", "802-11-wireless".to_owned()),
        text_setting("id", network.ssid.clone()),
    );
    let ssid_bytes = network.ssid.as_str().as_bytes_vec();
    let wireless = section_of_two(
        "802-11-wireless",
        Setting { key: "ssid".to_owned(), value: SettingValue::Bytes(ssid_bytes) },
        text_setting("mode", "infrastructure".to_owned()),
    );
    sections.push(connection);
    sections.push(wireless);
    if network.security == Security::Open {
        proof {
            assert(section_views(sections@) =~= profile_for(network@, password@));
        }
    } else {
        let key_mgmt = if network.security == Security::Wpa3 {
            "sae".to_owned()
        } else {
            "wpa-psk".to_owned()
        };
        let security = section_of_two(
            "802-11-wireless-security",
            text_setting("key-mgmt", key_mgmt),
            text_setting("psk", password.to_owned()),
        );
        sections.push(security);
        proof {
            assert(section_views(sections@) =~= profile_for(network@, password@));
        }
    }
    sections
}

} // verus!
