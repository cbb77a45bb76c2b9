//! What the user has chosen, once and for the whole run.

use crate::kind_set::DeviceKindSet;
use crate::output::{formatted, OutputRecord, Reading};
use crate::percentage::Percentage;
use std::time::Duration;
use vstd::prelude::*;

verus! {

/// The settings of a run. They are made once, at the start, and only read
/// after that.
#[derive(Debug)]
pub struct Configuration {
    /// The kinds of device to show.
    pub kinds: DeviceKindSet,
    /// The style class of a low charge.
    pub low_class: String,
    /// The charge up to which a charge counts as low.
    pub low_percentage: Percentage,
    /// Whether to go on after the first cycle, until cancelled.
    pub listen: bool,
    /// How long to wait for news of the devices before looking again.
    pub refresh: Duration,
}

impl Configuration {
    /// The record for a device of the given charge and model, under these
    /// settings.
    pub fn output(&self, percentage: &Reading, model: &str) -> (record: OutputRecord)
        ensures
            record@ == formatted(
                percentage.value,
                percentage.shown@,
                model@,
                self.low_percentage,
                self.low_class@,
            ),
    {
        crate::output::format(percentage, model, self.low_percentage, self.low_class.as_str())
    }
}

} // verus!
