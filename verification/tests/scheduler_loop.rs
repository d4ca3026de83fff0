use esp_scheduler::area_information::ParseError;
use esp_scheduler::config::{Config, Fetch, FetchResponse};
use esp_scheduler::dispatch::ExecError;
use esp_scheduler::evaluation::Evaluation;
use esp_scheduler::scheduler::FetchError;
use esp_scheduler::scheduler_loop::{Action, Halt, Input, Phase, SchedulerLoop, Source, Turn};
use esp_scheduler::timestamp::Timestamp;

const NEW_YEAR_2030: i64 = 1_893_456_000;
const OUTAGE_A: &str = "{\"events\":[{\"start\":\"2030-01-01T00:05:00+00:00\",\"note\":\"outage A\"}]}";

fn now() -> Timestamp {
    Timestamp::from_unix(NEW_YEAR_2030, 0)
}

fn loop_remote(occurrence: u32, threshold: u32, commands: &[&str]) -> Config {
    Config {
        version: Some(2),
        interval_mins: Some(1),
        fetch_occurrence: Some(occurrence),
        threshold,
        fetch: Some(Fetch { url: "http://localhost/schedule".to_string(), headers: None, response: None }),
        commands: Some(commands.iter().map(|c| c.to_string()).collect()),
    }
}

fn loop_pinned(content: &str, threshold: u32, commands: &[&str]) -> Config {
    let mut config = loop_remote(1, threshold, commands);
    config.fetch = Some(Fetch {
        url: String::new(),
        headers: None,
        response: Some(FetchResponse { code: 200, content: content.to_string() }),
    });
    config
}

fn step(state: SchedulerLoop, input: Input, config: &Config) -> (SchedulerLoop, Turn) {
    state.step(input, &now(), config, false)
}

fn minutes_of(turn: &Turn) -> i64 {
    match turn.evaluation.as_ref() {
        Some(Evaluation::Upcoming(u)) => u.minutes,
        other => panic!("no upcoming event in {:?}", other),
    }
}

#[test]
fn a_new_loop_waits_for_the_first_tick() {
    let state = SchedulerLoop::new();
    assert_eq!(state.scheduler.count, 0);
    assert_eq!(state.scheduler.cached_body, "{\"events\" : []}");
    assert!(matches!(state.phase, Phase::Idle));
    assert_eq!(state.pending(), Action::AwaitTick);
}

#[test]
fn an_event_within_the_threshold_runs_the_commands() {
    let config = loop_pinned(OUTAGE_A, 10, &["cat /etc/hostname", "date"]);
    let (state, turn) = step(SchedulerLoop::new(), Input::Tick, &config);
    assert_eq!(minutes_of(&turn), 5);
    assert_eq!(turn.action, Action::Run("cat /etc/hostname".to_string()));
    assert_eq!(state.scheduler.count, 0);
    let (state, turn) = step(state, Input::CommandEnded(Ok(())), &config);
    assert!(turn.evaluation.is_none());
    assert_eq!(turn.action, Action::Run("date".to_string()));
    let (state, turn) = step(state, Input::CommandEnded(Ok(())), &config);
    assert_eq!(turn.action, Action::AwaitTick);
    assert!(matches!(state.phase, Phase::Idle));
    assert_eq!(state.scheduler.count, 1);
}

#[test]
fn an_event_beyond_the_threshold_is_only_reported() {
    let config = loop_pinned(OUTAGE_A, 3, &["cat /etc/hostname", "date"]);
    let (state, turn) = step(SchedulerLoop::new(), Input::Tick, &config);
    match turn.evaluation.as_ref() {
        Some(Evaluation::Upcoming(u)) => {
            assert_eq!(u.minutes, 5);
            assert_eq!(u.note, "outage A");
            assert_eq!(u.dispatch, None);
            assert_eq!(u.summary(), "outage A in 5 mins. ");
        }
        other => panic!("unexpected evaluation {:?}", other),
    }
    assert_eq!(turn.action, Action::AwaitTick);
    assert_eq!(state.scheduler.count, 1);
}

#[test]
fn the_later_of_two_events_is_ignored() {
    let payload = "{\"events\":[{\"start\":\"2030-01-01T01:00:00+00:00\",\"note\":\"in an hour\"},\
        {\"start\":\"2030-01-01T00:05:00+00:00\",\"note\":\"in five\"}]}";
    let config = loop_pinned(payload, 10, &["date"]);
    let (_, turn) = step(SchedulerLoop::new(), Input::Tick, &config);
    match turn.evaluation.as_ref() {
        Some(Evaluation::Upcoming(u)) => {
            assert_eq!(u.index, 1);
            assert_eq!(u.note, "in five");
            assert_eq!(u.minutes, 5);
        }
        other => panic!("unexpected evaluation {:?}", other),
    }
    assert_eq!(turn.action, Action::Run("date".to_string()));
}

#[test]
fn a_failed_command_does_not_hold_back_the_next() {
    let config = loop_pinned(OUTAGE_A, 10, &["false", "exit 3", "date"]);
    let (state, turn) = step(SchedulerLoop::new(), Input::Tick, &config);
    assert_eq!(turn.action, Action::Run("false".to_string()));
    let (state, turn) = step(state, Input::CommandEnded(Err(ExecError::Spawn)), &config);
    assert_eq!(turn.action, Action::Run("exit 3".to_string()));
    let (state, turn) = step(state, Input::CommandEnded(Err(ExecError::Exit(3))), &config);
    assert_eq!(turn.action, Action::Run("date".to_string()));
    match &state.phase {
        Phase::Dispatching(dispatcher) => {
            assert_eq!(dispatcher.results(), &vec![Err(ExecError::Spawn), Err(ExecError::Exit(3))]);
        }
        other => panic!("unexpected phase {:?}", other),
    }
    let (state, turn) = step(state, Input::CommandEnded(Err(ExecError::Abnormal)), &config);
    assert_eq!(turn.action, Action::AwaitTick);
    assert_eq!(state.scheduler.count, 1);
}

#[test]
fn started_events_run_nothing() {
    let payload = "{\"events\":[{\"start\":\"2029-12-31T23:59:59+00:00\",\"note\":\"gone\"},\
        {\"start\":\"2030-01-01T00:00:00+00:00\",\"note\":\"now\"}]}";
    let config = loop_pinned(payload, u32::MAX, &["date"]);
    let (state, turn) = step(SchedulerLoop::new(), Input::Tick, &config);
    assert!(matches!(turn.evaluation, Some(Evaluation::NoUpcomingEvent)));
    assert_eq!(turn.action, Action::AwaitTick);
    assert_eq!(state.scheduler.count, 1);
}

#[test]
fn a_trigger_without_commands_completes_the_tick() {
    let config = loop_pinned(OUTAGE_A, 10, &[]);
    let (state, turn) = step(SchedulerLoop::new(), Input::Tick, &config);
    assert_eq!(minutes_of(&turn), 5);
    assert_eq!(turn.action, Action::AwaitTick);
    assert_eq!(state.scheduler.count, 1);
    let mut absent = loop_pinned(OUTAGE_A, 10, &[]);
    absent.commands = None;
    let (state, turn) = step(SchedulerLoop::new(), Input::Tick, &absent);
    assert_eq!(turn.action, Action::AwaitTick);
    assert_eq!(state.scheduler.count, 1);
}

#[test]
fn fetches_happen_on_multiples_of_the_cadence() {
    let config = loop_remote(3, 10, &[]);
    let mut state = SchedulerLoop::new();
    let mut requested_at = Vec::new();
    for tick in 0..10u32 {
        assert_eq!(state.scheduler.count, tick);
        let before = state.scheduler.cached_body.clone();
        let (next, turn) = step(state, Input::Tick, &config);
        state = next;
        if turn.action == Action::Request {
            requested_at.push(tick);
            assert!(matches!(state.phase, Phase::Fetching(Source::Remote)));
            assert_eq!(state.scheduler.cached_body, before);
            let body = format!("{{\"events\":[],\"fetched\":{}}}", tick);
            let (next, turn) = step(state, Input::Payload(Ok(body.clone())), &config);
            state = next;
            assert_eq!(state.scheduler.cached_body, body);
            assert_eq!(turn.action, Action::AwaitTick);
        } else {
            assert_eq!(turn.action, Action::AwaitTick);
            assert_eq!(state.scheduler.cached_body, before);
        }
        assert!(matches!(state.phase, Phase::Idle));
    }
    assert_eq!(requested_at, vec![0, 3, 6, 9]);
}

#[test]
fn a_failed_fetch_skips_the_tick_and_keeps_the_payload() {
    let config = loop_remote(2, 10, &["date"]);
    let (state, _) = step(SchedulerLoop::new(), Input::Tick, &config);
    let (state, turn) = step(state, Input::Payload(Ok(OUTAGE_A.to_string())), &config);
    assert_eq!(turn.action, Action::Run("date".to_string()));
    let (state, _) = step(state, Input::CommandEnded(Ok(())), &config);
    assert_eq!(state.scheduler.count, 1);
    let (state, turn) = step(state, Input::Tick, &config);
    assert_eq!(turn.action, Action::Run("date".to_string()));
    let (state, _) = step(state, Input::CommandEnded(Ok(())), &config);
    assert_eq!(state.scheduler.count, 2);
    let (state, turn) = step(state, Input::Tick, &config);
    assert_eq!(turn.action, Action::Request);
    let (state, turn) = step(state, Input::Payload(Err(FetchError::Unreachable)), &config);
    assert!(turn.evaluation.is_none());
    assert_eq!(turn.action, Action::AwaitTick);
    assert_eq!(state.scheduler.count, 3);
    assert_eq!(state.scheduler.cached_body, OUTAGE_A);
    assert!(matches!(state.phase, Phase::Idle));
    let (state, turn) = step(state, Input::Tick, &config);
    assert_eq!(minutes_of(&turn), 5);
    assert_eq!(turn.action, Action::Run("date".to_string()));
    let (state, _) = step(state, Input::CommandEnded(Ok(())), &config);
    assert_eq!(state.scheduler.count, 4);
    let (state, turn) = step(state, Input::Tick, &config);
    assert_eq!(turn.action, Action::Request);
    let (state, turn) = step(state, Input::Payload(Err(FetchError::Unreadable)), &config);
    assert!(turn.evaluation.is_none());
    assert_eq!(turn.action, Action::AwaitTick);
    assert_eq!(state.scheduler.count, 5);
    assert_eq!(state.scheduler.cached_body, OUTAGE_A);
}

#[test]
fn after_a_skipped_tick_the_next_fetch_waits_for_the_cadence() {
    let config = loop_remote(4, 10, &[]);
    let mut state = SchedulerLoop::new();
    let mut requested_at = Vec::new();
    for tick in 0..13u32 {
        assert_eq!(state.scheduler.count, tick);
        let (next, turn) = step(state, Input::Tick, &config);
        state = next;
        if turn.action == Action::Request {
            requested_at.push(tick);
            let outcome = if tick == 8 {
                Ok("{\"events\":[]}".to_string())
            } else {
                Err(FetchError::Unreachable)
            };
            let (next, turn) = step(state, Input::Payload(outcome), &config);
            state = next;
            assert_eq!(turn.action, Action::AwaitTick);
            assert_eq!(turn.evaluation.is_some(), tick == 8);
        } else {
            assert!(turn.evaluation.is_some());
            assert_eq!(turn.action, Action::AwaitTick);
        }
        let expected = if tick < 8 { "{\"events\" : []}" } else { "{\"events\":[]}" };
        assert_eq!(state.scheduler.cached_body, expected);
    }
    assert_eq!(requested_at, vec![0, 4, 8, 12]);
    assert_eq!(state.scheduler.count, 13);
}

#[test]
fn a_local_file_is_read_in_place_of_a_request() {
    let config = loop_remote(1, 10, &[]);
    let (state, turn) = SchedulerLoop::new().step(Input::Tick, &now(), &config, true);
    assert_eq!(turn.action, Action::ReadFile);
    assert!(matches!(state.phase, Phase::Fetching(Source::File)));
    assert_eq!(state.pending(), Action::ReadFile);
    let (state, turn) = state.step(Input::Payload(Ok(OUTAGE_A.to_string())), &now(), &config, true);
    assert_eq!(minutes_of(&turn), 5);
    assert_eq!(state.scheduler.cached_body, OUTAGE_A);
}

#[test]
fn a_missing_file_stops_the_loop() {
    let config = loop_remote(1, 10, &[]);
    let (state, _) = SchedulerLoop::new().step(Input::Tick, &now(), &config, true);
    let (state, turn) = state.step(Input::Payload(Err(FetchError::MissingFile)), &now(), &config, true);
    assert_eq!(turn.action, Action::Halt(Halt::SourceMissing));
    assert!(matches!(state.phase, Phase::Stopped(Halt::SourceMissing)));
    assert_eq!(Halt::SourceMissing.exit_code(), 1);
    let (state, turn) = state.step(Input::Tick, &now(), &config, true);
    assert_eq!(turn.action, Action::Halt(Halt::SourceMissing));
    assert_eq!(state.scheduler.count, 0);
}

#[test]
fn a_corrupt_payload_stops_the_loop() {
    let config = loop_remote(1, 10, &["date"]);
    let (state, _) = step(SchedulerLoop::new(), Input::Tick, &config);
    let (state, turn) = step(state, Input::Payload(Ok("<html>".to_string())), &config);
    assert!(turn.evaluation.is_none());
    assert_eq!(turn.action, Action::Halt(Halt::Corrupt(ParseError::Malformed)));
    assert!(matches!(state.phase, Phase::Stopped(Halt::Corrupt(ParseError::Malformed))));
    assert_eq!(state.scheduler.count, 0);
    assert_ne!(Halt::Corrupt(ParseError::Malformed).exit_code(), 0);
    let bad_time = loop_pinned("{\"events\":[{\"start\":\"soon\",\"note\":\"x\"}]}", 10, &[]);
    let (_, turn) = step(SchedulerLoop::new(), Input::Tick, &bad_time);
    assert_eq!(turn.action, Action::Halt(Halt::Corrupt(ParseError::InvalidTimestamp { index: 0 })));
}

#[test]
fn an_input_out_of_turn_changes_nothing() {
    let config = loop_remote(1, 10, &["date"]);
    let (state, turn) = step(SchedulerLoop::new(), Input::CommandEnded(Ok(())), &config);
    assert_eq!(turn.action, Action::AwaitTick);
    assert_eq!(state.scheduler.count, 0);
    let (state, turn) = step(state, Input::Payload(Ok(OUTAGE_A.to_string())), &config);
    assert_eq!(turn.action, Action::AwaitTick);
    assert_eq!(state.scheduler.cached_body, "{\"events\" : []}");
    let (state, _) = step(state, Input::Tick, &config);
    let (state, turn) = step(state, Input::Tick, &config);
    assert_eq!(turn.action, Action::Request);
    let (state, turn) = step(state, Input::CommandEnded(Err(ExecError::Wait)), &config);
    assert_eq!(turn.action, Action::Request);
    let (state, turn) = step(state, Input::Payload(Ok(OUTAGE_A.to_string())), &config);
    assert_eq!(turn.action, Action::Run("date".to_string()));
    let (state, turn) = step(state, Input::Tick, &config);
    assert_eq!(turn.action, Action::Run("date".to_string()));
    let (state, turn) = step(state, Input::Payload(Err(FetchError::Unreachable)), &config);
    assert_eq!(turn.action, Action::Run("date".to_string()));
    assert_eq!(state.scheduler.count, 0);
    assert_eq!(state.scheduler.cached_body, OUTAGE_A);
}

#[test]
fn without_a_source_the_cached_payload_is_evaluated() {
    let mut config = loop_remote(1, 10, &["date"]);
    config.fetch = None;
    let mut state = SchedulerLoop::new();
    state.scheduler.cached_body = OUTAGE_A.to_string();
    let (state, turn) = step(state, Input::Tick, &config);
    assert_eq!(minutes_of(&turn), 5);
    assert_eq!(turn.action, Action::Run("date".to_string()));
    assert_eq!(state.scheduler.cached_body, OUTAGE_A);
}
