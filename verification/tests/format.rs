use battery_watch::config::Configuration;
use battery_watch::kind_set::DeviceKindSet;
use battery_watch::output::{OutputRecord, Reading};
use battery_watch::percentage::Percentage;
use std::time::Duration;

fn number(x: f64) -> Percentage {
    Percentage::from_bits(x.to_bits())
}

fn reading(x: f64) -> Reading {
    Reading { value: number(x), shown: format!("{x}") }
}

fn value_of(record: &OutputRecord) -> Option<f64> {
    record.percentage.map(|p| f64::from_bits(p.to_bits()))
}

#[test]
fn low_charge_has_the_class() {
    let record = battery_watch::output::format(&reading(15.0), "ModelX", number(20.0), "low");
    assert_eq!(record.text, "15%");
    assert_eq!(record.tooltip.as_deref(), Some("ModelX"));
    assert_eq!(record.class.as_deref(), Some("low"));
    assert_eq!(value_of(&record), Some(15.0));
}

#[test]
fn high_charge_has_no_class() {
    let record = battery_watch::output::format(&reading(85.0), "ModelX", number(20.0), "low");
    assert_eq!(record.text, "85%");
    assert_eq!(record.tooltip.as_deref(), Some("ModelX"));
    assert_eq!(record.class, None);
    assert_eq!(value_of(&record), Some(85.0));
}

#[test]
fn empty_model_has_no_tooltip() {
    let record = battery_watch::output::format(&reading(50.0), "", number(20.0), "low");
    assert_eq!(record.text, "50%");
    assert_eq!(record.tooltip, None);
    assert_eq!(record.class, None);
    assert_eq!(value_of(&record), Some(50.0));
}

#[test]
fn charge_at_the_threshold_is_low() {
    let record = battery_watch::output::format(&reading(20.0), "M", number(20.0), "warn");
    assert_eq!(record.class.as_deref(), Some("warn"));
    let above = f64::from_bits(20.0f64.to_bits() + 1);
    let record = battery_watch::output::format(&reading(above), "M", number(20.0), "warn");
    assert_eq!(record.class, None);
}

#[test]
fn text_is_the_shown_number_and_a_percent_sign() {
    let record = battery_watch::output::format(&reading(42.5), "M", number(20.0), "low");
    assert_eq!(record.text, "42.5%");
    let record = battery_watch::output::format(&reading(0.0), "M", number(20.0), "low");
    assert_eq!(record.text, "0%");
    assert_eq!(record.class.as_deref(), Some("low"));
    let record = battery_watch::output::format(&reading(100.0), "M", number(20.0), "low");
    assert_eq!(record.text, "100%");
}

#[test]
fn empty_class_is_still_a_class() {
    let record = battery_watch::output::format(&reading(1.0), "M", number(20.0), "");
    assert_eq!(record.class.as_deref(), Some(""));
}

#[test]
fn white_space_is_a_model() {
    let record = battery_watch::output::format(&reading(1.0), " ", number(20.0), "low");
    assert_eq!(record.tooltip.as_deref(), Some(" "));
}

#[test]
fn configuration_formats_with_its_own_threshold() {
    let config = Configuration {
        kinds: DeviceKindSet::from_str("headset").unwrap(),
        low_class: "critical".to_string(),
        low_percentage: number(10.0),
        listen: false,
        refresh: Duration::from_secs(15),
    };
    let record = config.output(&reading(10.0), "Buds");
    assert_eq!(
        record,
        OutputRecord {
            text: "10%".to_string(),
            tooltip: Some("Buds".to_string()),
            class: Some("critical".to_string()),
            percentage: Some(number(10.0)),
        }
    );
    let record = config.output(&reading(15.0), "Buds");
    assert_eq!(record.class, None);
    assert_eq!(config.low_class, "critical");
}

#[test]
fn order_of_numbers_is_that_of_the_machine() {
    let values = [
        0.0,
        -0.0,
        1.0,
        -1.0,
        15.0,
        20.0,
        20.000000000000004,
        19.999999999999996,
        85.0,
        100.0,
        0.1,
        -0.1,
        1e-320,
        -1e-320,
        f64::MIN_POSITIVE,
        -f64::MIN_POSITIVE,
        f64::MAX,
        f64::MIN,
        f64::EPSILON,
        f64::INFINITY,
        f64::NEG_INFINITY,
        f64::NAN,
        -f64::NAN,
        f64::from_bits(0x7ff0_0000_0000_0001),
        f64::from_bits(0xfff8_0000_0000_0001),
        f64::from_bits(1),
        f64::from_bits(0x8000_0000_0000_0001),
    ];
    for a in values {
        for b in values {
            assert_eq!(number(a).le(number(b)), a <= b, "{a:?} <= {b:?}");
        }
    }
}

#[test]
fn bits_are_kept() {
    for x in [0.0, -0.0, 15.0, 99.5, f64::NAN] {
        assert_eq!(number(x).to_bits(), x.to_bits());
        assert_eq!(number(x).bits, x.to_bits());
    }
}
