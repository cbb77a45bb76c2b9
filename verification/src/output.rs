//! What is shown for one device.

use crate::percentage::Percentage;
use vstd::prelude::*;
use vstd::string::*;

verus! {

/// A charge as read from a device: the number, and the number written out
/// in decimal, as it is to be shown.
///
/// The library does not write numbers out itself. Whoever makes a `Reading`
/// sees to it that `shown` is the numeral of `value`.
#[derive(Debug, PartialEq, Eq)]
pub struct Reading {
    pub value: Percentage,
    pub shown: String,
}

/// One line for the status bar.
///
/// An optional field that is `None` is absent from the line; it is not
/// written as an empty or null value.
#[derive(Debug, PartialEq, Eq)]
pub struct OutputRecord {
    /// The charge with a percent sign.
    pub text: String,
    /// The model of the device, where the source knows one.
    pub tooltip: Option<String>,
    /// The style class of a low charge, where the charge is low.
    pub class: Option<String>,
    /// The charge as a number.
    pub percentage: Option<Percentage>,
}

/// An [`OutputRecord`] as specifications see it.
pub ghost struct OutputRecordView {
    pub text: Seq<char>,
    pub tooltip: Option<Seq<char>>,
    pub class: Option<Seq<char>>,
    pub percentage: Option<Percentage>,
}

/// An optional text as specifications see it.
pub open spec fn text_view(text: Option<String>) -> Option<Seq<char>> {
    match text {
        Some(s) => Some(s@),
        None => None,
    }
}

impl View for OutputRecord {
    type V = OutputRecordView;

    open spec fn view(&self) -> OutputRecordView {
        OutputRecordView {
            text: self.text@,
            tooltip: text_view(self.tooltip),
            class: text_view(self.class),
            percentage: self.percentage,
        }
    }
}

/// The record for a charge of `value`, written `shown`, of a device of the
/// given model, where a charge up to `low_percentage` counts as low and is
/// marked with `low_class`.
pub open spec fn formatted(
    value: Percentage,
    shown: Seq<char>,
    model: Seq<char>,
    low_percentage: Percentage,
    low_class: Seq<char>,
) -> OutputRecordView {
    OutputRecordView {
        text: shown + seq!['%'],
        tooltip: if model.len() == 0 {
            None
        } else {
            Some(model)
        },
        class: if value.at_most(low_percentage) {
            Some(low_class)
        } else {
            None
        },
        percentage: Some(value),
    }
}

/// The record for one device.
///
/// The text is the charge as `percentage` shows it, followed by a percent
/// sign. The tooltip is the model; a device without a model, which the
/// source reports as the empty text, has none. The class is `low_class`
/// where the charge is at most `low_percentage`, and absent above it. The
/// charge itself is carried along unchanged.
pub fn format(percentage: &Reading, model: &str, low_percentage: Percentage, low_class: &str) -> (record:
    OutputRecord)
    ensures
        record@ == formatted(percentage.value, percentage.shown@, model@, low_percentage, low_class@),
{
    let mut text = percentage.shown.clone();
    text.append("%");
    proof {
        reveal_strlit("%");
        assert("%"@ == seq!['%']);
    }
    let tooltip = if model.is_empty() {
        None
    } else {
        Some(String::from_str(model))
    };
    let class = if percentage.value.le(low_percentage) {
        Some(String::from_str(low_class))
    } else {
        None
    };
    OutputRecord { text, tooltip, class, percentage: Some(percentage.value) }
}

} // verus!
