use netman::security::{security_from_flags, Security};

#[test]
fn no_flags_is_open() {
    assert_eq!(security_from_flags(0, 0, 0), Security::Open);
}

#[test]
fn privacy_bit_alone_is_wep() {
    assert_eq!(security_from_flags(0x1, 0, 0), Security::Wep);
}

#[test]
fn other_general_flags_without_privacy_stay_open() {
    assert_eq!(security_from_flags(0x2, 0, 0), Security::Open);
}

#[test]
fn wpa_flags_alone_are_wpa() {
    assert_eq!(security_from_flags(0x1, 0x100, 0), Security::Wpa);
    assert_eq!(security_from_flags(0, 0x4, 0), Security::Wpa);
}

#[test]
fn rsn_flags_are_wpa2() {
    assert_eq!(security_from_flags(0x1, 0, 0x188), Security::Wpa2);
}

#[test]
fn rsn_beats_wpa() {
    assert_eq!(security_from_flags(0x1, 0x144, 0x188), Security::Wpa2);
}

#[test]
fn sae_bit_is_wpa3() {
    assert_eq!(security_from_flags(0x1, 0, 0x400), Security::Wpa3);
    assert_eq!(security_from_flags(0x1, 0x100, 0x588), Security::Wpa3);
}

#[test]
fn enterprise_bit_in_rsn_flags_is_enterprise() {
    assert_eq!(security_from_flags(0x1, 0, 0x288), Security::Enterprise);
}

#[test]
fn enterprise_bit_in_wpa_flags_is_enterprise() {
    assert_eq!(security_from_flags(0, 0x200, 0), Security::Enterprise);
}

#[test]
fn enterprise_beats_wpa3() {
    // SAE set in the RSN flags, 802.1X set in the WPA flags only.
    assert_eq!(security_from_flags(0x1, 0x200, 0x400), Security::Enterprise);
    assert_eq!(security_from_flags(0, 0, 0x600), Security::Enterprise);
}

#[test]
fn classification_is_repeatable() {
    let first = security_from_flags(0x1, 0x144, 0x588);
    let second = security_from_flags(0x1, 0x144, 0x588);
    assert_eq!(first, second);
}

#[test]
fn every_flag_word_gets_a_category() {
    let words = [0u32, 1, 0x200, 0x400, 0x600, 0xffff_ffff];
    for flags in words {
        for wpa in words {
            for rsn in words {
                let category = security_from_flags(flags, wpa, rsn);
                let enterprise = wpa & 0x200 != 0 || rsn & 0x200 != 0;
                assert_eq!(category == Security::Enterprise, enterprise);
                if !enterprise && rsn & 0x400 != 0 {
                    assert_eq!(category, Security::Wpa3);
                }
            }
        }
    }
}

#[test]
fn categories_are_shown_by_their_usual_names() {
    assert_eq!(Security::Open.label(), "Open");
    assert_eq!(Security::Wep.label(), "WEP");
    assert_eq!(Security::Wpa.label(), "WPA");
    assert_eq!(Security::Wpa2.label(), "WPA2");
    assert_eq!(Security::Wpa3.label(), "WPA3");
    assert_eq!(Security::Enterprise.label(), "Enterprise");
}
