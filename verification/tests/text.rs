use netman::error::NmError;
use netman::text::{check_object_path, contains_string};

#[test]
fn root_path_is_valid() {
    assert_eq!(check_object_path("/"), Ok(()));
}

#[test]
fn usual_device_path_is_valid() {
    assert_eq!(check_object_path("/org/freedesktop/NetworkManager/Devices/3"), Ok(()));
    assert_eq!(check_object_path("/Path/t0/0bject_x"), Ok(()));
}

#[test]
fn empty_text_is_no_path() {
    assert_eq!(check_object_path(""), Err(NmError::InvalidHandle));
}

#[test]
fn path_must_start_with_a_slash() {
    assert_eq!(check_object_path("org/freedesktop"), Err(NmError::InvalidHandle));
    assert_eq!(check_object_path("."), Err(NmError::InvalidHandle));
}

#[test]
fn path_must_not_end_with_a_slash() {
    assert_eq!(check_object_path("/end/with/slash/"), Err(NmError::InvalidHandle));
}

#[test]
fn path_must_not_hold_an_empty_element() {
    assert_eq!(check_object_path("/double//slashes"), Err(NmError::InvalidHandle));
    assert_eq!(check_object_path("//"), Err(NmError::InvalidHandle));
}

#[test]
fn path_elements_hold_letters_digits_and_underscores_only() {
    assert_eq!(check_object_path("/ha.d"), Err(NmError::InvalidHandle));
    assert_eq!(check_object_path("/with space"), Err(NmError::InvalidHandle));
    assert_eq!(check_object_path("/caf\u{e9}"), Err(NmError::InvalidHandle));
    assert_eq!(check_object_path("/a-b"), Err(NmError::InvalidHandle));
}

#[test]
fn contains_string_finds_what_is_there() {
    let list = vec!["a".to_string(), "b".to_string()];
    assert!(contains_string(&list, &"b".to_string()));
    assert!(!contains_string(&list, &"c".to_string()));
    assert!(!contains_string(&Vec::new(), &"a".to_string()));
}
