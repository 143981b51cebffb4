use server_status::cycle::{
    start, step, Action, Event, OutOfTurn, Phase, Step, UpdateResult, POLL_TIMEOUT_SECS,
};
use server_status::format::Templates;
use server_status::outcome::{PlayerCount, QueryReply};
use server_status::settings::Settings;

fn settings_with(online: &str, offline: &str, interval_secs: u64) -> Settings {
    Settings::new(
        "secret".to_string(),
        42,
        "mc.example.org".to_string(),
        25565,
        interval_secs,
        Templates { online: online.to_string(), offline: offline.to_string() },
    )
    .expect("the settings are valid")
}

fn settings() -> Settings {
    settings_with("$ONLINE/$MAX online", "Server offline", 30)
}

fn answered(online: u32, max: u32) -> Event {
    Event::Polled { reply: QueryReply::Answered { players: Some(PlayerCount { online, max }) } }
}

fn poll_failed(reason: &str) -> Event {
    Event::Polled { reply: QueryReply::Failed { reason: reason.to_string() } }
}

fn update_failed(reason: &str) -> Event {
    Event::Updated { result: UpdateResult::Failed { reason: reason.to_string() } }
}

fn renamed() -> Event {
    Event::Updated { result: UpdateResult::Done }
}

fn the_poll() -> Action {
    Action::Poll { host: "mc.example.org".to_string(), port: 25565, timeout_secs: 20 }
}

#[test]
fn poll_timeout_is_twenty_seconds() {
    assert_eq!(POLL_TIMEOUT_SECS, 20);
}

#[test]
fn work_begins_with_a_poll() {
    let first = start(&settings());
    assert_eq!(first, Step { phase: Phase::Polling, action: the_poll(), report: None });
}

#[test]
fn poll_timeout_does_not_follow_the_interval() {
    for interval_secs in [1u64, 5, 20, 3600] {
        let settings = settings_with("$ONLINE", "off", interval_secs);
        assert_eq!(start(&settings).action, the_poll());
    }
}

#[test]
fn reachable_server_is_shown_with_its_counts() {
    let taken = step(&settings(), Phase::Polling, answered(5, 10));
    assert_eq!(
        taken,
        Ok(Step {
            phase: Phase::Updating,
            action: Action::Update { channel_id: 42, name: "5/10 online".to_string() },
            report: None,
        })
    );
}

#[test]
fn refused_connection_is_shown_as_offline() {
    let taken = step(&settings(), Phase::Polling, poll_failed("connection refused"));
    assert_eq!(
        taken,
        Ok(Step {
            phase: Phase::Updating,
            action: Action::Update { channel_id: 42, name: "Server offline".to_string() },
            report: Some("Failed to ping: connection refused".to_string()),
        })
    );
}

#[test]
fn timed_out_poll_is_shown_as_offline() {
    let taken = step(&settings(), Phase::Polling, Event::Polled { reply: QueryReply::TimedOut });
    assert_eq!(
        taken,
        Ok(Step {
            phase: Phase::Updating,
            action: Action::Update { channel_id: 42, name: "Server offline".to_string() },
            report: Some("Failed to ping: the query timed out".to_string()),
        })
    );
}

#[test]
fn answer_without_counts_is_shown_as_offline() {
    let event = Event::Polled { reply: QueryReply::Answered { players: None } };
    let taken = step(&settings(), Phase::Polling, event);
    assert_eq!(
        taken,
        Ok(Step {
            phase: Phase::Updating,
            action: Action::Update { channel_id: 42, name: "Server offline".to_string() },
            report: Some("Failed to ping: the answer held no player counts".to_string()),
        })
    );
}

#[test]
fn renamed_channel_is_followed_by_the_rest() {
    let taken = step(&settings(), Phase::Updating, renamed());
    assert_eq!(
        taken,
        Ok(Step { phase: Phase::Sleeping, action: Action::Sleep { secs: 30 }, report: None })
    );
}

#[test]
fn failed_renaming_is_logged_and_followed_by_the_rest() {
    let settings = settings();
    let taken = step(&settings, Phase::Updating, update_failed("Unknown Channel"));
    assert_eq!(
        taken,
        Ok(Step {
            phase: Phase::Sleeping,
            action: Action::Sleep { secs: 30 },
            report: Some("Failed to edit channel name: Unknown Channel".to_string()),
        })
    );
    let after_rest = step(&settings, Phase::Sleeping, Event::Slept);
    assert_eq!(
        after_rest,
        Ok(Step { phase: Phase::Polling, action: the_poll(), report: None })
    );
}

#[test]
fn rest_is_the_interval_of_the_settings() {
    for interval_secs in [1u64, 30, 86400, u64::MAX] {
        let settings = settings_with("$ONLINE", "off", interval_secs);
        for event in [renamed(), update_failed("rate limited")] {
            let taken = step(&settings, Phase::Updating, event).expect("the event is in turn");
            assert_eq!(taken.action, Action::Sleep { secs: interval_secs });
        }
    }
}

#[test]
fn rest_is_followed_by_the_next_poll() {
    let taken = step(&settings(), Phase::Sleeping, Event::Slept);
    assert_eq!(taken, Ok(Step { phase: Phase::Polling, action: the_poll(), report: None }));
}

#[test]
fn events_out_of_turn_are_not_taken() {
    let settings = settings();
    let out_of_turn = [
        (Phase::Polling, renamed()),
        (Phase::Polling, update_failed("x")),
        (Phase::Polling, Event::Slept),
        (Phase::Updating, answered(1, 2)),
        (Phase::Updating, poll_failed("x")),
        (Phase::Updating, Event::Slept),
        (Phase::Sleeping, answered(1, 2)),
        (Phase::Sleeping, Event::Polled { reply: QueryReply::TimedOut }),
        (Phase::Sleeping, renamed()),
    ];
    for (phase, event) in out_of_turn {
        assert_eq!(step(&settings, phase, event), Err(OutOfTurn { phase }));
    }
}

#[test]
fn channel_is_renamed_after_every_poll_even_to_the_same_name() {
    let settings = settings();
    let mut names = Vec::new();
    for _ in 0..3 {
        let taken = step(&settings, Phase::Polling, answered(5, 10)).expect("in turn");
        match taken.action {
            Action::Update { name, .. } => names.push(name),
            other => panic!("a poll is followed by renaming, not by {:?}", other),
        }
    }
    assert_eq!(names, vec!["5/10 online", "5/10 online", "5/10 online"]);
}

#[test]
fn cycles_follow_each_other_whatever_fails() {
    let settings = settings();
    let replies = vec![
        (answered(5, 10), renamed(), "5/10 online"),
        (poll_failed("connection refused"), renamed(), "Server offline"),
        (answered(6, 10), update_failed("Missing Permissions"), "6/10 online"),
        (
            Event::Polled { reply: QueryReply::TimedOut },
            update_failed("503"),
            "Server offline",
        ),
        (answered(0, 10), renamed(), "0/10 online"),
    ];
    let Step { mut phase, mut action, .. } = start(&settings);
    let mut slept: u64 = 0;
    for (poll_event, update_event, expected_name) in replies {
        assert_eq!(phase, Phase::Polling);
        assert_eq!(action, the_poll());
        let after_poll = step(&settings, phase, poll_event).expect("a poll was asked for");
        assert_eq!(after_poll.phase, Phase::Updating);
        assert_eq!(
            after_poll.action,
            Action::Update { channel_id: 42, name: expected_name.to_string() }
        );
        let after_update =
            step(&settings, after_poll.phase, update_event).expect("renaming was asked for");
        assert_eq!(after_update.phase, Phase::Sleeping);
        assert_eq!(after_update.action, Action::Sleep { secs: 30 });
        slept += 30;
        let after_rest =
            step(&settings, after_update.phase, Event::Slept).expect("a rest was asked for");
        assert_eq!(after_rest.report, None);
        phase = after_rest.phase;
        action = after_rest.action;
    }
    assert_eq!(phase, Phase::Polling);
    assert_eq!(action, the_poll());
    assert_eq!(slept, 150);
}

#[test]
fn polls_are_at_least_the_interval_apart() {
    let settings = settings();
    let took_secs = |action: &Action| -> u64 {
        match action {
            Action::Poll { .. } => 2,
            Action::Update { .. } => 1,
            Action::Sleep { secs } => *secs,
        }
    };
    let Step { mut phase, mut action, .. } = start(&settings);
    let mut now: u64 = 1000;
    let mut poll_times = Vec::new();
    for round in 0u32..12 {
        let event = match &action {
            Action::Poll { .. } => {
                poll_times.push(now);
                if round % 2 == 0 {
                    answered(round, 20)
                } else {
                    poll_failed("connection reset")
                }
            }
            Action::Update { .. } => update_failed("Unknown Channel"),
            Action::Sleep { .. } => Event::Slept,
        };
        now += took_secs(&action);
        let taken = step(&settings, phase, event).expect("each event answers the work before it");
        phase = taken.phase;
        action = taken.action;
    }
    assert_eq!(poll_times, vec![1000, 1033, 1066, 1099]);
    for pair in poll_times.windows(2) {
        assert!(pair[0] + settings.interval_secs() <= pair[1]);
    }
}
