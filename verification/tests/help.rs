use battery_watch::kind_set::DeviceKindSet;

const HEADING: &str = "Bluetooth device kinds to match, comma separated. Possible values:\n\n";

const NAMES: &str = "unknown, line-power, battery, ups, monitor, mouse, keyboard, pda, phone, \
                     media-player, tablet, computer, gaming-input, pen, touchpad, modem, network, \
                     headset, speakers, headphones, video, other-audio, remote-control, printer, \
                     scanner, camera, wearable, toy, generic, last";

#[test]
fn kind_names_are_joined_in_code_order() {
    assert_eq!(DeviceKindSet::kind_names(), NAMES);
}

#[test]
fn help_is_the_heading_and_the_list() {
    assert_eq!(DeviceKindSet::help_around("a, b,\nc"), format!("{HEADING}a, b,\nc"));
    assert_eq!(DeviceKindSet::help_around(""), HEADING);
}

#[test]
fn help_wraps_the_names_to_what_the_margin_leaves() {
    let text = DeviceKindSet::long_help_at(52);
    let list = text.strip_prefix(HEADING).unwrap();
    assert_eq!(
        list,
        "unknown, line-power, battery, ups,\n\
         monitor, mouse, keyboard, pda, phone,\n\
         media-player, tablet, computer, gaming-\n\
         input, pen, touchpad, modem, network,\n\
         headset, speakers, headphones, video,\n\
         other-audio, remote-control, printer,\n\
         scanner, camera, wearable, toy, generic,\n\
         last"
    );
    for line in list.lines() {
        assert!(line.len() <= 40, "{line:?}");
    }
    assert_eq!(list, textwrap::fill(NAMES, textwrap::Options::new(40)));
}

#[test]
fn help_on_a_wide_terminal_is_one_line() {
    let text = DeviceKindSet::long_help_at(1000);
    assert_eq!(text, format!("{HEADING}{NAMES}"));
}

#[test]
fn help_on_a_terminal_narrower_than_the_margin() {
    for columns in [0, 5, 11, 12] {
        let text = DeviceKindSet::long_help_at(columns);
        let list = text.strip_prefix(HEADING).unwrap();
        assert_eq!(list, textwrap::fill(NAMES, textwrap::Options::new(0)), "{columns}");
    }
}

#[test]
fn help_for_this_terminal() {
    let text = DeviceKindSet::long_help();
    assert!(text.starts_with(HEADING));
    assert_eq!(text, DeviceKindSet::long_help_at(textwrap::termwidth()));
}
