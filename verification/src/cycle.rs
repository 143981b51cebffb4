//! The order of a reporter's work: poll the server, rename the channel,
//! rest; then again, without end.
//!
//! Nothing is polled, renamed or slept through here. `start` and `step` say
//! what is to be done next; whoever does it hands back what came of it.

use crate::format::{display_name, shown};
use crate::outcome::{classified, classify, PollOutcome, PollOutcomeView, QueryReply, QueryReplyView};
use crate::settings::{Settings, SettingsView};
use vstd::prelude::*;
use vstd::string::*;

verus! {

/// Seconds that a query of the server may take. The same for every poll,
/// whatever the rest between polls is.
pub const POLL_TIMEOUT_SECS: u64 = 20;

/// What the reporter is waiting for.
#[derive(Debug, Clone, Copy, PartialEq, Eq, Structural)]
pub enum Phase {
    /// The server is being asked.
    Polling,
    /// The channel is being renamed.
    Updating,
    /// The rest between two polls is running.
    Sleeping,
}

/// What came of renaming the channel.
#[derive(Debug, Clone, PartialEq, Eq)]
pub enum UpdateResult {
    Done,
    Failed { reason: String },
}

/// An `UpdateResult` with its text as a sequence of characters.
pub enum UpdateResultView {
    Done,
    Failed { reason: Seq<char> },
}

impl View for UpdateResult {
    type V = UpdateResultView;

    open spec fn view(&self) -> UpdateResultView {
        match *self {
            UpdateResult::Done => UpdateResultView::Done,
            UpdateResult::Failed { reason } => UpdateResultView::Failed { reason: reason@ },
        }
    }
}

/// What came of the work that was asked for.
#[derive(Debug, Clone, PartialEq, Eq)]
pub enum Event {
    /// The query of the server has ended.
    Polled { reply: QueryReply },
    /// The attempt to rename the channel has ended.
    Updated { result: UpdateResult },
    /// The rest is over.
    Slept,
}

/// An `Event` with its texts as sequences of characters.
pub enum EventView {
    Polled { reply: QueryReplyView },
    Updated { result: UpdateResultView },
    Slept,
}

impl View for Event {
    type V = EventView;

    open spec fn view(&self) -> EventView {
        match *self {
            Event::Polled { reply } => EventView::Polled { reply: reply@ },
            Event::Updated { result } => EventView::Updated { result: result@ },
            Event::Slept => EventView::Slept,
        }
    }
}

/// The work to be done next.
#[derive(Debug, Clone, PartialEq, Eq)]
pub enum Action {
    /// Ask the server at `host` and `port` once, and give up after
    /// `timeout_secs` seconds.
    Poll { host: String, port: u16, timeout_secs: u64 },
    /// Rename the channel `channel_id` to `name`, once.
    Update { channel_id: u64, name: String },
    /// Rest for `secs` seconds.
    Sleep { secs: u64 },
}

/// An `Action` with its texts as sequences of characters.
pub enum ActionView {
    Poll { host: Seq<char>, port: u16, timeout_secs: u64 },
    Update { channel_id: u64, name: Seq<char> },
    Sleep { secs: u64 },
}

impl View for Action {
    type V = ActionView;

    open spec fn view(&self) -> ActionView {
        match *self {
            Action::Poll { host, port, timeout_secs } => ActionView::Poll {
                host: host@,
                port,
                timeout_secs,
            },
            Action::Update { channel_id, name } => ActionView::Update { channel_id, name: name@ },
            Action::Sleep { secs } => ActionView::Sleep { secs },
        }
    }
}

/// What follows an event: the phase entered, the work to be done in it, and
/// a line for the log where the event told of a failure.
#[derive(Debug, Clone, PartialEq, Eq)]
pub struct Step {
    pub phase: Phase,
    pub action: Action,
    pub report: Option<String>,
}

/// A `Step` with its texts as sequences of characters.
pub struct StepView {
    pub phase: Phase,
    pub action: ActionView,
    pub report: Option<Seq<char>>,
}

impl View for Step {
    type V = StepView;

    open spec fn view(&self) -> StepView {
        StepView {
            phase: self.phase,
            action: self.action@,
            report: match self.report {
                Some(line) => Some(line@),
                None => None,
            },
        }
    }
}

/// The event does not tell of the work that the phase waits for.
#[derive(Debug, Clone, Copy, PartialEq, Eq, Structural)]
pub struct OutOfTurn {
    pub phase: Phase,
}

/// The poll that a cycle begins with: the server of the settings, and the
/// fixed time allowed.
pub open spec fn poll_action(settings: SettingsView) -> ActionView {
    ActionView::Poll { host: settings.host, port: settings.port, timeout_secs: POLL_TIMEOUT_SECS }
}

/// What the work begins with, and what follows every rest: a poll, and
/// nothing to be logged.
pub open spec fn first_step(settings: SettingsView) -> StepView {
    StepView { phase: Phase::Polling, action: poll_action(settings), report: None }
}

/// The log line for a poll: none where the server was reached, else the
/// reason behind `Failed to ping: `.
pub open spec fn poll_report(outcome: PollOutcomeView) -> Option<Seq<char>> {
    match outcome {
        PollOutcomeView::Reachable { .. } => None,
        PollOutcomeView::Unreachable { reason } => Some("Failed to ping: "@ + reason),
    }
}

/// The log line for an attempt to rename the channel: none where it was
/// renamed, else the reason behind `Failed to edit channel name: `.
pub open spec fn update_report(result: UpdateResultView) -> Option<Seq<char>> {
    match result {
        UpdateResultView::Done => None,
        UpdateResultView::Failed { reason } => Some("Failed to edit channel name: "@ + reason),
    }
}

/// Whether `event` tells of the work that `phase` waits for.
pub open spec fn answers(phase: Phase, event: EventView) -> bool {
    match phase {
        Phase::Polling => event is Polled,
        Phase::Updating => event is Updated,
        Phase::Sleeping => event is Slept,
    }
}

/// What follows `event` in `phase`, or nothing where the event is out of
/// turn.
///
/// A poll is followed by renaming the channel to the name that shows what
/// the poll found, whether or not the server was reached. An attempt to
/// rename is followed by the rest, whether or not the channel was renamed.
/// The rest is followed by the next poll.
pub open spec fn next(settings: SettingsView, phase: Phase, event: EventView) -> Option<StepView> {
    match event {
        EventView::Polled { reply } if phase == Phase::Polling => Some(
            StepView {
                phase: Phase::Updating,
                action: ActionView::Update {
                    channel_id: settings.channel_id,
                    name: shown(classified(reply), settings.templates),
                },
                report: poll_report(classified(reply)),
            },
        ),
        EventView::Updated { result } if phase == Phase::Updating => Some(
            StepView {
                phase: Phase::Sleeping,
                action: ActionView::Sleep { secs: settings.interval_secs },
                report: update_report(result),
            },
        ),
        EventView::Slept if phase == Phase::Sleeping => Some(first_step(settings)),
        _ => None,
    }
}

/// The poll of `settings`.
fn poll_of(settings: &Settings) -> (action: Action)
    ensures
        action@ == poll_action(settings@),
{
    Action::Poll {
        host: settings.host().to_owned(),
        port: settings.port(),
        timeout_secs: POLL_TIMEOUT_SECS,
    }
}

/// `reason` behind `prefix`.
fn report_line(prefix: &str, reason: &str) -> (line: String)
    ensures
        line@ == prefix@ + reason@,
{
    let mut line = prefix.to_owned();
    line.append(reason);
    line
}

/// Begins the work: the reporter waits for the first poll, and nothing is
/// to be logged.
pub fn start(settings: &Settings) -> (first: Step)
    ensures
        first@ == first_step(settings@),
{
    Step { phase: Phase::Polling, action: poll_of(settings), report: None }
}

/// Says what follows `event` in `phase`.
///
/// An event that tells of the work `phase` waits for is always taken, a
/// failure as well as a success; any other event is out of turn.
pub fn step(settings: &Settings, phase: Phase, event: Event) -> (taken: Result<Step, OutOfTurn>)
    ensures
        match taken {
            Ok(step) => next(settings@, phase, event@) == Some(step@),
            Err(refusal) => next(settings@, phase, event@) is None && refusal.phase == phase,
        },
        taken is Ok <==> answers(phase, event@),
{
    match phase {
        Phase::Polling => match event {
            Event::Polled { reply } => {
                let outcome = classify(reply);
                let name = display_name(&outcome, settings.templates());
                let report = match &outcome {
                    PollOutcome::Reachable { .. } => None,
                    PollOutcome::Unreachable { reason } => Some(
                        report_line("Failed to ping: ", reason.as_str()),
                    ),
                };
                Ok(
                    Step {
                        phase: Phase::Updating,
                        action: Action::Update { channel_id: settings.channel_id(), name },
                        report,
                    },
                )
            },
            _ => Err(OutOfTurn { phase }),
        },
        Phase::Updating => match event {
            Event::Updated { result } => {
                let report = match &result {
                    UpdateResult::Done => None,
                    UpdateResult::Failed { reason } => Some(
                        report_line("Failed to edit channel name: ", reason.as_str()),
                    ),
                };
                Ok(
                    Step {
                        phase: Phase::Sleeping,
                        action: Action::Sleep { secs: settings.interval_secs() },
                        report,
                    },
                )
            },
            _ => Err(OutOfTurn { phase }),
        },
        Phase::Sleeping => match event {
            Event::Slept => Ok(
                Step { phase: Phase::Polling, action: poll_of(settings), report: None },
            ),
            _ => Err(OutOfTurn { phase }),
        },
    }
}

} // verus!
