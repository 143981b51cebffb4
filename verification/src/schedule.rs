//! What holds of every run of a reporter: which work follows which, that no
//! failure ends it, and how far apart its polls are.

use crate::cycle::{
    answers, first_step, next, poll_action, update_report, ActionView, EventView, Phase, StepView,
    UpdateResultView,
};
use crate::format::shown;
use crate::outcome::{classified, timed_out_reason, QueryReplyView};
use crate::settings::SettingsView;
use vstd::prelude::*;

verus! {

/// The phase reached and the work asked for once `events` have been handed
/// in from the start, one after the other; nothing where one of them was
/// out of turn.
pub open spec fn run(settings: SettingsView, events: Seq<EventView>) -> Option<(Phase, ActionView)>
    decreases events.len(),
{
    if events.len() == 0 {
        Some((first_step(settings).phase, first_step(settings).action))
    } else {
        match run(settings, events.drop_last()) {
            Some((phase, _)) => match next(settings, phase, events.last()) {
                Some(step) => Some((step.phase, step.action)),
                None => None,
            },
            None => None,
        }
    }
}

/// Whether `times` can be the moments, in seconds, at which the work of a
/// run was asked for: `times[0]` for the first poll, `times[i + 1]` for what
/// followed `events[i]`. Time does not run backwards, and a rest takes at
/// least as long as was asked.
pub open spec fn on_time(settings: SettingsView, events: Seq<EventView>, times: Seq<nat>) -> bool {
    &&& times.len() == events.len() + 1
    &&& forall|i: int| 0 <= i < events.len() ==> times[i] <= #[trigger] times[i + 1]
    &&& forall|i: int|
        0 <= i < events.len() ==> (#[trigger] run(settings, events.take(i)) matches Some(
            (_, ActionView::Sleep { secs }),
        ) ==> times[i] + secs <= times[i + 1])
}

/// A run that took all its events took each of their beginnings.
proof fn lemma_run_began(settings: SettingsView, events: Seq<EventView>, taken: int)
    requires
        run(settings, events) is Some,
        0 <= taken <= events.len(),
    ensures
        run(settings, events.take(taken)) is Some,
    decreases events.len(),
{
    if taken == events.len() {
        assert(events.take(taken) =~= events);
    } else {
        assert(events.drop_last().take(taken) =~= events.take(taken));
        lemma_run_began(settings, events.drop_last(), taken);
    }
}

/// Time does not run backwards between any two moments of a run.
proof fn lemma_times_ordered(times: Seq<nat>, from: int, to: int)
    requires
        forall|i: int| 0 <= i < times.len() - 1 ==> times[i] <= #[trigger] times[i + 1],
        0 <= from <= to < times.len(),
    ensures
        times[from] <= times[to],
    decreases to - from,
{
    if from < to {
        lemma_times_ordered(times, from, to - 1);
        assert(times[to - 1] <= times[to - 1 + 1]);
    }
}

/// The work of a run comes in turns of three: a poll of the server in the
/// settings with the fixed time allowed, then renaming the channel in the
/// settings to the name that shows what that poll found, then a rest of the
/// interval in the settings.
pub proof fn law_turns(settings: SettingsView, events: Seq<EventView>)
    requires
        run(settings, events) is Some,
    ensures
        ({
            let (phase, action) = run(settings, events)->0;
            &&& events.len() % 3 == 0 ==> phase == Phase::Polling && action == poll_action(
                settings,
            )
            &&& events.len() % 3 == 1 ==> phase == Phase::Updating && events.last() is Polled
                && action == (ActionView::Update {
                channel_id: settings.channel_id,
                name: shown(classified(events.last()->reply), settings.templates),
            })
            &&& events.len() % 3 == 2 ==> phase == Phase::Sleeping && action == (ActionView::Sleep {
                secs: settings.interval_secs,
            })
        }),
    decreases events.len(),
{
    if events.len() > 0 {
        law_turns(settings, events.drop_last());
    }
}

/// The events of a run come in the same turns: what the poll came to, then
/// what the renaming came to, then the end of the rest. So a poll is asked
/// for only when the renaming before it has ended, well or not, and the
/// rest behind that is over.
pub proof fn law_events_in_turn(settings: SettingsView, events: Seq<EventView>, at: int)
    requires
        run(settings, events) is Some,
        0 <= at < events.len(),
    ensures
        at % 3 == 0 ==> events[at] is Polled,
        at % 3 == 1 ==> events[at] is Updated,
        at % 3 == 2 ==> events[at] is Slept,
{
    let before = events.take(at);
    let with = events.take(at + 1);
    lemma_run_began(settings, events, at);
    lemma_run_began(settings, events, at + 1);
    law_turns(settings, before);
    assert(with.drop_last() =~= before);
    assert(with.last() == events[at]);
}

/// No answer ends a run: whatever came of the work that was asked for, a
/// failure as well as a success, the run takes it and asks for the next
/// work. Only an event that tells of other work is not taken.
pub proof fn law_run_goes_on(settings: SettingsView, events: Seq<EventView>, event: EventView)
    requires
        run(settings, events) is Some,
    ensures
        ({
            let (phase, _) = run(settings, events)->0;
            run(settings, events.push(event)) is Some <==> answers(phase, event)
        }),
{
    assert(events.push(event).drop_last() =~= events);
}

/// A poll that ran out of time shows the server as not reachable: the
/// channel is renamed to the offline text.
pub proof fn law_timeout_is_offline(settings: SettingsView)
    ensures
        classified(QueryReplyView::TimedOut) is Unreachable,
        next(settings, Phase::Polling, EventView::Polled { reply: QueryReplyView::TimedOut })
            == Some(
            StepView {
                phase: Phase::Updating,
                action: ActionView::Update {
                    channel_id: settings.channel_id,
                    name: settings.templates.offline,
                },
                report: Some("Failed to ping: "@ + timed_out_reason()),
            },
        ),
{
}

/// A failed attempt to rename the channel is logged and nothing more: the
/// rest of the interval in the settings follows, and the next poll after it.
pub proof fn law_failed_update_is_passed_over(settings: SettingsView, reason: Seq<char>)
    ensures
        next(
            settings,
            Phase::Updating,
            EventView::Updated { result: UpdateResultView::Failed { reason } },
        ) == Some(
            StepView {
                phase: Phase::Sleeping,
                action: ActionView::Sleep { secs: settings.interval_secs },
                report: update_report(UpdateResultView::Failed { reason }),
            },
        ),
        next(settings, Phase::Sleeping, EventView::Slept) == Some(first_step(settings)),
{
}

/// Cycles do not overlap: between the polls of two cycles lie the renaming
/// and the whole rest of the earlier one, so the later poll is asked for at
/// least the interval in the settings after the earlier, and with valid
/// settings strictly later.
pub proof fn law_polls_are_apart(
    settings: SettingsView,
    events: Seq<EventView>,
    times: Seq<nat>,
    earlier: int,
    later: int,
)
    requires
        run(settings, events) is Some,
        on_time(settings, events, times),
        0 <= earlier < later <= events.len(),
        earlier % 3 == 0,
        later % 3 == 0,
    ensures
        times[earlier] + settings.interval_secs <= times[later],
        settings.valid() ==> times[earlier] < times[later],
{
    let before_rest = events.take(later - 1);
    lemma_run_began(settings, events, later - 1);
    law_turns(settings, before_rest);
    assert(run(settings, before_rest) matches Some((_, ActionView::Sleep { secs })) && secs
        == settings.interval_secs);
    assert(times[later - 1] + settings.interval_secs <= times[later - 1 + 1]);
    lemma_times_ordered(times, earlier, later - 1);
}

} // verus!
