use battery_watch::kind::{DeviceKind, ParseError, KIND_COUNT};
use battery_watch::text::{chars_of, is_whitespace, to_lower};

const NAMES: [&str; 30] = [
    "unknown",
    "line-power",
    "battery",
    "ups",
    "monitor",
    "mouse",
    "keyboard",
    "pda",
    "phone",
    "media-player",
    "tablet",
    "computer",
    "gaming-input",
    "pen",
    "touchpad",
    "modem",
    "network",
    "headset",
    "speakers",
    "headphones",
    "video",
    "other-audio",
    "remote-control",
    "printer",
    "scanner",
    "camera",
    "wearable",
    "toy",
    "generic",
    "last",
];

#[test]
fn there_are_thirty_kinds() {
    assert_eq!(KIND_COUNT, 30);
    assert_eq!(NAMES.len(), 30);
}

#[test]
fn codes_and_kinds_correspond() {
    for code in 0..KIND_COUNT {
        let kind = DeviceKind::from_code(code);
        assert_eq!(kind.code(), code);
        assert_eq!(DeviceKind::from_u32(code), Some(kind));
    }
    assert_eq!(DeviceKind::from_code(0), DeviceKind::Unknown);
    assert_eq!(DeviceKind::from_code(1), DeviceKind::LinePower);
    assert_eq!(DeviceKind::from_code(8), DeviceKind::Phone);
    assert_eq!(DeviceKind::from_code(17), DeviceKind::Headset);
    assert_eq!(DeviceKind::from_code(19), DeviceKind::Headphones);
    assert_eq!(DeviceKind::from_code(29), DeviceKind::Last);
    assert_eq!(DeviceKind::Headset.code(), 17);
    assert_eq!(DeviceKind::Last.code(), 29);
}

#[test]
fn code_out_of_range_is_unknown() {
    assert_eq!(DeviceKind::from_code(999), DeviceKind::Unknown);
    assert_eq!(DeviceKind::from_code(30), DeviceKind::Unknown);
    assert_eq!(DeviceKind::from_code(u32::MAX), DeviceKind::Unknown);
    assert_eq!(DeviceKind::from_u32(999), None);
    assert_eq!(DeviceKind::from_u32(30), None);
    assert_eq!(DeviceKind::from_u32(u32::MAX), None);
}

#[test]
fn canonical_names_are_in_code_order() {
    for code in 0..KIND_COUNT {
        assert_eq!(DeviceKind::from_code(code).canonical_name(), NAMES[code as usize]);
    }
}

#[test]
fn canonical_name_names_its_kind() {
    for code in 0..KIND_COUNT {
        let kind = DeviceKind::from_code(code);
        assert_eq!(DeviceKind::from_name(kind.canonical_name()), Ok(kind));
    }
}

#[test]
fn names_are_distinct() {
    for a in 0..30 {
        for b in 0..30 {
            if a != b {
                assert_ne!(NAMES[a], NAMES[b]);
            }
        }
    }
}

#[test]
fn name_is_read_without_regard_to_case() {
    assert_eq!(DeviceKind::from_name("Headset"), Ok(DeviceKind::Headset));
    assert_eq!(DeviceKind::from_name("HEADPHONES"), Ok(DeviceKind::Headphones));
    assert_eq!(DeviceKind::from_name("Media-Player"), Ok(DeviceKind::MediaPlayer));
    assert_eq!(DeviceKind::from_name("uPs"), Ok(DeviceKind::Ups));
}

#[test]
fn name_is_read_without_surrounding_white_space() {
    assert_eq!(DeviceKind::from_name("  mouse"), Ok(DeviceKind::Mouse));
    assert_eq!(DeviceKind::from_name("mouse \t\n"), Ok(DeviceKind::Mouse));
    assert_eq!(DeviceKind::from_name("\u{a0}pen\u{3000}"), Ok(DeviceKind::Pen));
    assert_eq!(DeviceKind::from_name("\u{2003} Toy \u{85}"), Ok(DeviceKind::Toy));
}

#[test]
fn white_space_is_what_std_trims() {
    for n in 0..=0x3100u32 {
        if let Some(c) = char::from_u32(n) {
            let padded = format!("{c}pda{c}");
            let expected = if c.is_whitespace() {
                Ok(DeviceKind::Pda)
            } else {
                Err(ParseError::UnknownKindName { token: padded.clone() })
            };
            assert_eq!(DeviceKind::from_name(&padded), expected, "U+{n:04X}");
        }
    }
}

#[test]
fn unknown_name_is_an_error() {
    assert_eq!(
        DeviceKind::from_name("bogus-kind"),
        Err(ParseError::UnknownKindName { token: "bogus-kind".to_string() })
    );
    assert_eq!(
        DeviceKind::from_name("  Bogus Kind "),
        Err(ParseError::UnknownKindName { token: "Bogus Kind".to_string() })
    );
    assert_eq!(DeviceKind::from_name(""), Err(ParseError::UnknownKindName { token: String::new() }));
    assert_eq!(
        DeviceKind::from_name("   "),
        Err(ParseError::UnknownKindName { token: String::new() })
    );
}

#[test]
fn name_must_match_whole() {
    for wrong in ["head set", "headsets", "eadset", "line_power", "linepower", "LinePower", "head-set"] {
        assert_eq!(
            DeviceKind::from_name(wrong),
            Err(ParseError::UnknownKindName { token: wrong.to_string() })
        );
    }
}

#[test]
fn only_ascii_letters_fold() {
    // U+212A KELVIN SIGN lowers to `k` in Unicode, but is no ASCII letter.
    assert_eq!(
        DeviceKind::from_name("\u{212a}eyboard"),
        Err(ParseError::UnknownKindName { token: "\u{212a}eyboard".to_string() })
    );
    assert_eq!(DeviceKind::from_name("Keyboard"), Ok(DeviceKind::Keyboard));
}

#[test]
fn default_kind_is_unknown() {
    assert_eq!(DeviceKind::default(), DeviceKind::Unknown);
}

#[test]
fn characters_are_taken_one_by_one() {
    assert_eq!(chars_of(""), Vec::<char>::new());
    assert_eq!(chars_of("a-b"), vec!['a', '-', 'b']);
    assert_eq!(chars_of("\u{e9}\u{3000}\u{1f50b}"), vec!['\u{e9}', '\u{3000}', '\u{1f50b}']);
}

#[test]
fn white_space_is_the_unicode_property() {
    for n in 0..=0x11_0000u32 {
        if let Some(c) = char::from_u32(n) {
            assert_eq!(is_whitespace(c), c.is_whitespace(), "U+{n:04X}");
        }
    }
}

#[test]
fn only_ascii_capitals_are_lowered() {
    for n in 0..=0x11_0000u32 {
        if let Some(c) = char::from_u32(n) {
            assert_eq!(to_lower(c), c.to_ascii_lowercase(), "U+{n:04X}");
        }
    }
    assert_eq!(to_lower('A'), 'a');
    assert_eq!(to_lower('Z'), 'z');
    assert_eq!(to_lower('@'), '@');
    assert_eq!(to_lower('['), '[');
    assert_eq!(to_lower('\u{c9}'), '\u{c9}');
}
