//! Object paths and the text of SSIDs.

use vstd::prelude::*;
use vstd::utf8::{decode_utf8, valid_utf8};
use crate::error::{NmError, NmErrorView};

verus! {

/// The error type of the `zvariant` crate, carried through as it comes.
#[verifier::external_type_specification]
#[verifier::external_body]
pub struct ExVariantError(zbus::zvariant::Error);

/// Whether a character may stand inside an element of an object path: an
/// ASCII letter, an ASCII digit or `_`.
pub open spec fn is_path_element_char(c: char) -> bool {
    ('a' <= c && c <= 'z') || ('A' <= c && c <= 'Z') || ('0' <= c && c <= '9') || c == '_'
}

/// Whether a text is a well-formed object path: it starts with `/`, holds
/// nothing but `/` and element characters, has no empty element, and does
/// not end in `/` unless it is the root path `/` itself.
pub open spec fn is_object_path(s: Seq<char>) -> bool {
    &&& s.len() >= 1
    &&& s[0] == '/'
    &&& forall|i: int| 0 <= i < s.len() ==> is_path_element_char(#[trigger] s[i]) || s[i] == '/'
    &&& forall|i: int, j: int|
        0 <= i && j == i + 1 && j < s.len() ==> !(#[trigger] s[i] == '/' && #[trigger] s[j] == '/')
    &&& s.len() > 1 ==> s[s.len() - 1] != '/'
}

/// The text that lossy UTF-8 decoding makes of a byte string: valid
/// sequences decoded, every invalid one replaced by U+FFFD.
pub uninterp spec fn utf8_lossy(bytes: Seq<u8>) -> Seq<char>;

/// Calls `zvariant::ObjectPath::try_from` on a string and drops the path it
/// builds. The contract restates the rules of that crate's validation: the
/// call succeeds exactly on the texts that `is_object_path` describes.
#[verifier::external_body]
fn parse_object_path(path: &str) -> (parsed: Result<(), zbus::zvariant::Error>)
    ensures
        parsed is Ok <==> is_object_path(path@),
{
    match zbus::zvariant::ObjectPath::try_from(path) {
        Ok(_) => Ok(()),
        Err(e) => Err(e),
    }
}

/// Calls `String::from_utf8_lossy`. The contract names the result, and says
/// of valid UTF-8 that it is decoded as it stands.
#[verifier::external_body]
pub(crate) fn decode_lossy(bytes: &Vec<u8>) -> (text: String)
    ensures
        text@ == utf8_lossy(bytes@),
        valid_utf8(bytes@) ==> text@ == decode_utf8(bytes@),
{
    String::from_utf8_lossy(bytes).into_owned()
}

/// Accepts a text that is a well-formed object path and rejects any other
/// as an invalid handle.
pub fn check_object_path(path: &str) -> (checked: Result<(), NmError>)
    ensures
        checked is Ok <==> is_object_path(path@),
        checked matches Err(e) ==> e@ == NmErrorView::InvalidHandle,
{
    match parse_object_path(path) {
        Ok(_) => Ok(()),
        Err(_) => Err(NmError::InvalidHandle),
    }
}

/// The view of a string that may be missing.
pub open spec fn opt_view(text: Option<String>) -> Option<Seq<char>> {
    match text {
        Some(t) => Some(t@),
        None => None,
    }
}

/// The views of a list of strings, in order.
pub open spec fn string_views(strings: Seq<String>) -> Seq<Seq<char>> {
    strings.map_values(|s: String| s@)
}

/// Whether a list of strings holds the given one.
pub fn contains_string(strings: &Vec<String>, wanted: &String) -> (found: bool)
    ensures
        found == string_views(strings@).contains(wanted@),
{
    let mut i: usize = 0;
    while i < strings.len()
        invariant
            i <= strings.len(),
            forall|j: int| 0 <= j < i ==> string_views(strings@)[j] != wanted@,
        decreases strings.len() - i,
    {
        if strings[i] == *wanted {
            assert(string_views(strings@)[i as int] == wanted@);
            return true;
        }
        i += 1;
    }
    false
}

} // verus!
