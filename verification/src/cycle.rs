//! One refresh cycle: ask the device source which devices there are, ask
//! each device what it is and how it is charged, and show those that the
//! user wants to see.
//!
//! The library does not talk to the device source. A [`RefreshCycle`] says
//! what to ask next and takes the answer; what it hands back is to be
//! written out at once. Whoever drives it does the asking and the writing.

use crate::config::Configuration;
use crate::kind::DeviceKind;
use crate::output::{formatted, OutputRecord, OutputRecordView, Reading};
use vstd::prelude::*;

verus! {

/// What the device source tells of one device.
#[derive(Debug, PartialEq, Eq)]
pub struct DeviceReport {
    /// The code of the device's kind.
    pub type_code: u32,
    /// The charge of the device.
    pub percentage: Reading,
    /// The model of the device; empty where the source knows none.
    pub model: String,
}

/// A question to the device source.
#[derive(Clone, Copy, Debug, PartialEq, Eq, Structural)]
pub enum CycleRequest {
    /// How many devices are there? They are then known by their places,
    /// from 0, in the order in which the source lists them.
    Enumerate,
    /// What is the device at this place?
    Query(usize),
}

/// An answer of the device source.
#[derive(Debug, PartialEq, Eq)]
pub enum SourceReply {
    /// There are this many devices.
    Devices(usize),
    /// This is the device that was asked for.
    Device(DeviceReport),
    /// The source could not answer.
    Failed,
}

/// Why a cycle came to nothing.
#[derive(Clone, Copy, Debug, PartialEq, Eq, Structural)]
pub enum CycleError {
    /// The source could not list its devices, or could not tell of one of
    /// them.
    DeviceQueryFailed,
}

/// Something to write out: each is one line.
#[derive(Debug, PartialEq, Eq)]
pub enum Emission {
    /// The record of a device.
    Record(OutputRecord),
    /// An empty line, which says that there is no device to show.
    Blank,
}

/// An [`Emission`] as specifications see it.
pub ghost enum EmissionView {
    Record(OutputRecordView),
    Blank,
}

impl View for Emission {
    type V = EmissionView;

    open spec fn view(&self) -> EmissionView {
        match self {
            Emission::Record(record) => EmissionView::Record(record@),
            Emission::Blank => EmissionView::Blank,
        }
    }
}

/// How far a cycle has come.
#[derive(Clone, Copy, Debug, PartialEq, Eq, Structural)]
pub enum CycleState {
    /// The devices are not counted yet.
    Enumerating,
    /// There are `count` devices; those before `index` have been looked at,
    /// and `seen` of them were shown.
    Querying { index: usize, count: usize, seen: usize },
    /// Every device has been looked at.
    Finished,
    /// The source failed, and the cycle with it.
    Failed,
}

/// Whether the user wants to see the device of `report`. A device whose
/// code stands for no kind counts as [`DeviceKind::Unknown`].
pub open spec fn wanted(config: Configuration, report: DeviceReport) -> bool {
    config.kinds@.contains(DeviceKind::lenient(report.type_code))
}

/// The record of the device of `report`.
pub open spec fn record_of(config: Configuration, report: DeviceReport) -> OutputRecordView {
    formatted(
        report.percentage.value,
        report.percentage.shown@,
        report.model@,
        config.low_percentage,
        config.low_class@,
    )
}

/// The record of the device of `report` if the user wants to see it.
pub open spec fn shown(config: Configuration, report: DeviceReport) -> Option<OutputRecordView> {
    if wanted(config, report) {
        Some(record_of(config, report))
    } else {
        None
    }
}

/// What a cycle asks next in a given state; nothing once it is over.
pub open spec fn pending(state: CycleState) -> Option<CycleRequest> {
    match state {
        CycleState::Enumerating => Some(CycleRequest::Enumerate),
        CycleState::Querying { index, .. } => Some(CycleRequest::Query(index)),
        CycleState::Finished => None,
        CycleState::Failed => None,
    }
}

/// How a cycle ended in a given state; nothing while it is under way.
pub open spec fn outcome_of(state: CycleState) -> Option<Result<(), CycleError>> {
    match state {
        CycleState::Finished => Some(Ok(())),
        CycleState::Failed => Some(Err(CycleError::DeviceQueryFailed)),
        _ => None,
    }
}

/// One step of a cycle: the state after `reply`, and what is to be written
/// out on it.
///
/// A cycle that is over takes no more notice of replies. Before that, a
/// reply that does not answer the question, like one that reports failure,
/// ends the cycle in failure. A device that the user wants to see is shown
/// as soon as it is known. When the last device has been looked at and none
/// was shown, an empty line is written in their place.
pub open spec fn advance(config: Configuration, state: CycleState, reply: SourceReply) -> (
    CycleState,
    Option<EmissionView>,
) {
    match state {
        CycleState::Enumerating => match reply {
            SourceReply::Devices(count) => if count == 0 {
                (CycleState::Finished, Some(EmissionView::Blank))
            } else {
                (CycleState::Querying { index: 0, count, seen: 0 }, None)
            },
            _ => (CycleState::Failed, None),
        },
        CycleState::Querying { index, count, seen } => match reply {
            SourceReply::Device(report) => {
                let last = index + 1 >= count;
                let emission = match shown(config, report) {
                    Some(record) => Some(EmissionView::Record(record)),
                    None => if last && seen == 0 {
                        Some(EmissionView::Blank)
                    } else {
                        None
                    },
                };
                let seen_now = if wanted(config, report) {
                    (seen + 1) as usize
                } else {
                    seen
                };
                let next = if last {
                    CycleState::Finished
                } else {
                    CycleState::Querying { index: (index + 1) as usize, count, seen: seen_now }
                };
                (next, emission)
            },
            _ => (CycleState::Failed, None),
        },
        CycleState::Finished => (state, None),
        CycleState::Failed => (state, None),
    }
}

/// What a cycle writes out as specifications see it.
pub open spec fn emission_view(emission: Option<Emission>) -> Option<EmissionView> {
    match emission {
        Some(e) => Some(e@),
        None => None,
    }
}

/// A refresh cycle under way.
#[derive(Debug)]
pub struct RefreshCycle {
    state: CycleState,
}

impl View for RefreshCycle {
    type V = CycleState;

    closed spec fn view(&self) -> CycleState {
        self.state
    }
}

impl RefreshCycle {
    #[verifier::type_invariant]
    spec fn well_formed(self) -> bool {
        match self.state {
            CycleState::Querying { index, count, seen } => seen <= index < count,
            _ => true,
        }
    }

    /// A cycle at its start.
    pub fn new() -> (cycle: RefreshCycle)
        ensures
            cycle@ == CycleState::Enumerating,
    {
        RefreshCycle { state: CycleState::Enumerating }
    }

    /// What to ask the device source next; `None` once the cycle is over.
    pub fn request(&self) -> (request: Option<CycleRequest>)
        ensures
            request == pending(self@),
    {
        match self.state {
            CycleState::Enumerating => Some(CycleRequest::Enumerate),
            CycleState::Querying { index, .. } => Some(CycleRequest::Query(index)),
            CycleState::Finished => None,
            CycleState::Failed => None,
        }
    }

    /// How the cycle ended; `None` while it is under way.
    pub fn outcome(&self) -> (outcome: Option<Result<(), CycleError>>)
        ensures
            outcome == outcome_of(self@),
    {
        match self.state {
            CycleState::Finished => Some(Ok(())),
            CycleState::Failed => Some(Err(CycleError::DeviceQueryFailed)),
            _ => None,
        }
    }

    /// Takes the answer to the pending question. What comes back is to be
    /// written out before the next question is asked.
    pub fn step(&mut self, config: &Configuration, reply: &SourceReply) -> (emitted: Option<
        Emission,
    >)
        ensures
            final(self)@ == advance(*config, old(self)@, *reply).0,
            emission_view(emitted) == advance(*config, old(self)@, *reply).1,
    {
        proof {
            use_type_invariant(&*self);
        }
        match self.state {
            CycleState::Enumerating => match reply {
                SourceReply::Devices(count) => {
                    if *count == 0 {
                        self.state = CycleState::Finished;
                        Some(Emission::Blank)
                    } else {
                        self.state = CycleState::Querying { index: 0, count: *count, seen: 0 };
                        None
                    }
                },
                _ => {
                    self.state = CycleState::Failed;
                    None
                },
            },
            CycleState::Querying { index, count, seen } => match reply {
                SourceReply::Device(report) => {
                    let last = index + 1 >= count;
                    let kind = DeviceKind::from_code(report.type_code);
                    let wanted = config.kinds.contains(kind);
                    let emitted = if wanted {
                        Some(
                            Emission::Record(
                                config.output(&report.percentage, report.model.as_str()),
                            ),
                        )
                    } else if last && seen == 0 {
                        Some(Emission::Blank)
                    } else {
                        None
                    };
                    let seen_now = if wanted {
                        seen + 1
                    } else {
                        seen
                    };
                    if last {
                        self.state = CycleState::Finished;
                    } else {
                        self.state = CycleState::Querying {
                            index: index + 1,
                            count,
                            seen: seen_now,
                        };
                    }
                    emitted
                },
                _ => {
                    self.state = CycleState::Failed;
                    None
                },
            },
            CycleState::Finished => None,
            CycleState::Failed => None,
        }
    }
}

/// What a fresh cycle comes to when it is given `replies` one after the
/// other: the state it ends in, and all that it writes out on the way.
pub open spec fn replay(config: Configuration, replies: Seq<SourceReply>) -> (
    CycleState,
    Seq<EmissionView>,
)
    decreases replies.len(),
{
    if replies.len() == 0 {
        (CycleState::Enumerating, Seq::empty())
    } else {
        let before = replay(config, replies.drop_last());
        let step = advance(config, before.0, replies.last());
        (
            step.0,
            match step.1 {
                Some(emission) => before.1.push(emission),
                None => before.1,
            },
        )
    }
}

/// Emissions as specifications see them.
pub open spec fn emission_views(emitted: Seq<Emission>) -> Seq<EmissionView> {
    emitted.map_values(|e: Emission| e@)
}

/// The replies of a source that answers every question and has the devices
/// of `reports`, in that order.
pub open spec fn answers(reports: Seq<DeviceReport>) -> Seq<SourceReply> {
    seq![SourceReply::Devices(reports.len() as usize)] + reports.map_values(
        |report: DeviceReport| SourceReply::Device(report),
    )
}

/// The records of those devices that the user wants to see, in the order of
/// the reports.
pub open spec fn records_shown(config: Configuration, reports: Seq<DeviceReport>) -> Seq<
    OutputRecordView,
> {
    reports.filter_map(|report: DeviceReport| shown(config, report))
}

/// What a cycle over the devices of `reports` is to write out: the record of
/// every device that the user wants to see, in the order of the reports, or
/// one empty line where there is no such device.
pub open spec fn cycle_output(config: Configuration, reports: Seq<DeviceReport>) -> Seq<
    EmissionView,
> {
    let records = records_shown(config, reports);
    if records.len() == 0 {
        seq![EmissionView::Blank]
    } else {
        records.map_values(|record: OutputRecordView| EmissionView::Record(record))
    }
}

/// What a run of a cycle came to.
#[derive(Debug, PartialEq, Eq)]
pub struct CycleReport {
    /// What was written out, in order.
    pub emitted: Vec<Emission>,
    /// How the cycle ended; `None` where the replies ended before it did.
    pub outcome: Option<Result<(), CycleError>>,
}

/// Runs a cycle on replies that were taken down beforehand, and collects
/// what it writes out.
pub fn run(config: &Configuration, replies: &Vec<SourceReply>) -> (report: CycleReport)
    ensures
        emission_views(report.emitted@) == replay(*config, replies@).1,
        report.outcome == outcome_of(replay(*config, replies@).0),
{
    let mut cycle = RefreshCycle::new();
    let mut emitted: Vec<Emission> = Vec::new();
    let mut i: usize = 0;
    while i < replies.len()
        invariant
            i <= replies.len(),
            cycle@ == replay(*config, replies@.take(i as int)).0,
            emission_views(emitted@) == replay(*config, replies@.take(i as int)).1,
        decreases replies.len() - i,
    {
        proof {
            assert(replies@.take(i + 1).drop_last() == replies@.take(i as int));
        }
        match cycle.step(config, &replies[i]) {
            Some(emission) => {
                emitted.push(emission);
            },
            None => {},
        }
        i += 1;
    }
    assert(replies@.take(i as int) == replies@);
    CycleReport { emitted, outcome: cycle.outcome() }
}

/// A cycle on a source that answers every question looks at every device
/// and writes out what [`cycle_output`] says: a record for each device of a
/// wanted kind, in the order in which the source lists the devices, or one
/// empty line where no device is of a wanted kind.
pub proof fn lemma_cycle_shows_the_wanted(config: Configuration, reports: Seq<DeviceReport>)
    requires
        reports.len() <= usize::MAX,
    ensures
        replay(config, answers(reports)) == (
            CycleState::Finished,
            cycle_output(config, reports),
        ),
{
    let replies = answers(reports);
    if reports.len() == 0 {
        lemma_replay_of_one(config, replies);
    } else {
        lemma_cycle_so_far(config, reports, reports.len() as int);
        assert(replies.take(reports.len() as int + 1) == replies);
    }
}

/// A cycle that finds no device of a wanted kind writes out one empty line
/// and nothing else.
pub proof fn lemma_nothing_wanted_gives_blank(config: Configuration, reports: Seq<DeviceReport>)
    requires
        reports.len() <= usize::MAX,
        forall|i: int| 0 <= i < reports.len() ==> !wanted(config, #[trigger] reports[i]),
    ensures
        replay(config, answers(reports)) == (CycleState::Finished, seq![EmissionView::Blank]),
{
    lemma_cycle_shows_the_wanted(config, reports);
    lemma_none_shown(config, reports);
}

/// A cycle writes out at least one line, and an empty line only in place of
/// all records.
pub proof fn lemma_cycle_output_shape(config: Configuration, reports: Seq<DeviceReport>)
    ensures
        cycle_output(config, reports).len() >= 1,
        cycle_output(config, reports) == seq![EmissionView::Blank] || forall|i: int|
            0 <= i < cycle_output(config, reports).len() ==> (#[trigger] cycle_output(
                config,
                reports,
            )[i]) is Record,
{
}

/// A cycle ends in failure as soon as the source fails: when it cannot list
/// its devices, and when it has told of the first `told` devices and cannot
/// tell of the next. The records of the wanted devices among those `told`
/// have been written out by then; nothing is written after them, not even
/// an empty line.
pub proof fn lemma_cycle_fails_with_the_source(
    config: Configuration,
    reports: Seq<DeviceReport>,
    told: int,
)
    requires
        reports.len() <= usize::MAX,
        0 <= told < reports.len(),
    ensures
        replay(config, seq![SourceReply::Failed]) == (
            CycleState::Failed,
            Seq::<EmissionView>::empty(),
        ),
        replay(config, answers(reports).take(told + 1).push(SourceReply::Failed)) == (
            CycleState::Failed,
            records_shown(config, reports.take(told)).map_values(
                |record: OutputRecordView| EmissionView::Record(record),
            ),
        ),
{
    lemma_replay_of_one(config, seq![SourceReply::Failed]);
    lemma_cycle_so_far(config, reports, told);
    let heard = answers(reports).take(told + 1);
    assert(heard.push(SourceReply::Failed).drop_last() == heard);
}

/// Once a cycle is over, whatever comes after changes nothing and writes
/// nothing.
pub proof fn lemma_over_is_over(
    config: Configuration,
    replies: Seq<SourceReply>,
    more: Seq<SourceReply>,
)
    requires
        outcome_of(replay(config, replies).0) is Some,
    ensures
        replay(config, replies + more) == replay(config, replies),
    decreases more.len(),
{
    if more.len() > 0 {
        lemma_over_is_over(config, replies, more.drop_last());
        assert((replies + more).drop_last() == replies + more.drop_last());
    }
}

/// What a cycle comes to on its first reply.
proof fn lemma_replay_of_one(config: Configuration, replies: Seq<SourceReply>)
    requires
        replies.len() == 1,
    ensures
        replay(config, replies).0 == advance(config, CycleState::Enumerating, replies[0]).0,
        replay(config, replies).1 == match advance(config, CycleState::Enumerating, replies[0]).1 {
            Some(emission) => Seq::<EmissionView>::empty().push(emission),
            None => Seq::<EmissionView>::empty(),
        },
{
    assert(replay(config, replies.drop_last()).0 == CycleState::Enumerating);
}

proof fn lemma_none_shown(config: Configuration, reports: Seq<DeviceReport>)
    requires
        forall|i: int| 0 <= i < reports.len() ==> !wanted(config, #[trigger] reports[i]),
    ensures
        records_shown(config, reports).len() == 0,
    decreases reports.len(),
{
    if reports.len() > 0 {
        lemma_none_shown(config, reports.drop_last());
    }
}

/// Where a cycle stands when the source has told of the first `looked_at`
/// devices.
proof fn lemma_cycle_so_far(config: Configuration, reports: Seq<DeviceReport>, looked_at: int)
    requires
        1 <= reports.len() <= usize::MAX,
        0 <= looked_at <= reports.len(),
    ensures
        ({
            let records = records_shown(config, reports.take(looked_at));
            let so_far = replay(config, answers(reports).take(looked_at + 1));
            if looked_at < reports.len() {
                &&& so_far.0 == (CycleState::Querying {
                    index: looked_at as usize,
                    count: reports.len() as usize,
                    seen: records.len() as usize,
                })
                &&& so_far.1 == records.map_values(
                    |record: OutputRecordView| EmissionView::Record(record),
                )
                &&& records.len() <= looked_at
            } else {
                so_far == (CycleState::Finished, cycle_output(config, reports))
            }
        }),
    decreases looked_at,
{
    let replies = answers(reports);
    if looked_at == 0 {
        lemma_replay_of_one(config, replies.take(1));
    } else {
        lemma_cycle_so_far(config, reports, looked_at - 1);
        assert(replies.take(looked_at + 1).drop_last() == replies.take(looked_at));
        assert(reports.take(looked_at).drop_last() == reports.take(looked_at - 1));
    }
}

} // verus!
