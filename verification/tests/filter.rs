use battery_watch::kind::{DeviceKind, ParseError, KIND_COUNT};
use battery_watch::kind_set::DeviceKindSet;

fn members(set: &DeviceKindSet) -> Vec<DeviceKind> {
    (0..KIND_COUNT).map(DeviceKind::from_code).filter(|kind| set.contains(*kind)).collect()
}

fn unknown(token: &str) -> ParseError {
    ParseError::UnknownKindName { token: token.to_string() }
}

#[test]
fn parse_matches_exactly_the_named_kinds() {
    let set = DeviceKindSet::from_str("headset, headphones").unwrap();
    assert!(set.contains(DeviceKind::Headset));
    assert!(set.contains(DeviceKind::Headphones));
    assert_eq!(members(&set), vec![DeviceKind::Headset, DeviceKind::Headphones]);
}

#[test]
fn parse_ignores_case_and_white_space() {
    let set = DeviceKindSet::from_str("  HeadSet ,\tMOUSE,gaming-INPUT\n").unwrap();
    assert_eq!(
        members(&set),
        vec![DeviceKind::Mouse, DeviceKind::GamingInput, DeviceKind::Headset]
    );
}

#[test]
fn parse_of_one_name() {
    let set = DeviceKindSet::from_str("keyboard").unwrap();
    assert_eq!(members(&set), vec![DeviceKind::Keyboard]);
}

#[test]
fn parse_of_every_name() {
    let all: Vec<&str> =
        (0..KIND_COUNT).map(|code| DeviceKind::from_code(code).canonical_name()).collect();
    let set = DeviceKindSet::from_str(&all.join(",")).unwrap();
    assert_eq!(members(&set).len(), 30);
}

#[test]
fn parse_takes_a_name_twice() {
    let set = DeviceKindSet::from_str("phone, Phone,phone ,tablet,phone").unwrap();
    assert_eq!(members(&set), vec![DeviceKind::Phone, DeviceKind::Tablet]);
}

#[test]
fn empty_input_matches_no_device() {
    let set = DeviceKindSet::from_str("").unwrap();
    assert_eq!(members(&set), vec![]);
    for code in 0..KIND_COUNT {
        assert!(!set.contains(DeviceKind::from_code(code)));
    }
}

#[test]
fn unknown_name_fails_the_parse() {
    let result = DeviceKindSet::from_str("headset, bogus-kind");
    assert_eq!(result.err(), Some(unknown("bogus-kind")));
}

#[test]
fn first_unknown_name_is_reported() {
    let result = DeviceKindSet::from_str("mouse, first bad ,pen, second-bad");
    assert_eq!(result.err(), Some(unknown("first bad")));
    let result = DeviceKindSet::from_str("nope,mouse");
    assert_eq!(result.err(), Some(unknown("nope")));
}

#[test]
fn empty_item_is_no_name() {
    assert_eq!(DeviceKindSet::from_str("headset,").err(), Some(unknown("")));
    assert_eq!(DeviceKindSet::from_str(",headset").err(), Some(unknown("")));
    assert_eq!(DeviceKindSet::from_str("headset,,mouse").err(), Some(unknown("")));
    assert_eq!(DeviceKindSet::from_str(",").err(), Some(unknown("")));
    assert_eq!(DeviceKindSet::from_str(" ").err(), Some(unknown("")));
}

#[test]
fn unknown_has_to_be_named_to_match() {
    let set = DeviceKindSet::from_str("headset").unwrap();
    assert!(!set.contains(DeviceKind::from_code(999)));
    let set = DeviceKindSet::from_str("headset, unknown").unwrap();
    assert!(set.contains(DeviceKind::from_code(999)));
    assert!(set.contains(DeviceKind::Unknown));
}

#[test]
fn clone_holds_the_same_kinds() {
    let set = DeviceKindSet::from_str("camera, video").unwrap();
    let copy = set.clone();
    assert_eq!(members(&copy), members(&set));
}
