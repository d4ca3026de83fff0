//! The loop as a state machine: each step takes what has just happened and
//! says what is to be done next. Whoever runs the loop waits for ticks,
//! fetches payloads and runs commands; every decision is taken here.

use vstd::prelude::*;
use crate::area_information::ParseError;
use crate::config::{clone_texts, Config};
use crate::dispatch::{Dispatcher, DispatcherView, ExecError};
use crate::evaluation::{Evaluation, EvaluationView};
use crate::scheduler::{
    evaluate_payload, fetch_step_spec, is_fetch_due, is_recoverable,
    law_next_fetch_is_a_cadence_later, pinned_content, FetchError, FetchStep, Scheduler,
    TickProgress,
};
use crate::timestamp::Timestamp;

verus! {

/// Where a payload is fetched from.
#[derive(Clone, Copy, Debug, PartialEq, Eq, Structural)]
pub enum Source {
    /// The local file named at start-up.
    File,
    /// The configured URL.
    Remote,
}

/// Why the loop has stopped.
#[derive(Clone, Copy, Debug, PartialEq, Eq, Structural)]
pub enum Halt {
    /// The local file named at start-up could not be read.
    SourceMissing,
    /// The payload in hand is no schedule.
    Corrupt(ParseError),
}

/// What the loop is waiting for.
#[derive(Debug)]
pub enum Phase {
    /// The next tick.
    Idle,
    /// The payload of the fetch that was asked for.
    Fetching(Source),
    /// The end of the command that was handed out.
    Dispatching(Dispatcher),
    /// Nothing: the loop has stopped.
    Stopped(Halt),
}

/// What has just happened.
#[derive(Debug)]
pub enum Input {
    /// The timer has fired.
    Tick,
    /// The fetch that was asked for has ended.
    Payload(Result<String, FetchError>),
    /// The command that was handed out has ended.
    CommandEnded(Result<(), ExecError>),
}

/// What is to be done next.
#[derive(Clone, Debug, PartialEq, Eq)]
pub enum Action {
    /// Wait for the timer, then step with `Input::Tick`.
    AwaitTick,
    /// Read the local file, then step with `Input::Payload`.
    ReadFile,
    /// Request the configured URL, then step with `Input::Payload`.
    Request,
    /// Run this command in a shell and wait for its end, then step with
    /// `Input::CommandEnded`.
    Run(String),
    /// Stop the process.
    Halt(Halt),
}

/// The outcome of one step.
#[derive(Debug)]
pub struct Turn {
    /// The evaluation that this step made, if it made one.
    pub evaluation: Option<Evaluation>,
    /// What is to be done next.
    pub action: Action,
}

/// The loop between two steps.
#[derive(Debug)]
pub struct SchedulerLoop {
    /// The tick count and the cached payload.
    pub scheduler: Scheduler,
    /// What the loop is waiting for.
    pub phase: Phase,
}

/// `Phase` as contracts speak of it.
pub enum PhaseView {
    Idle,
    Fetching(Source),
    Dispatching(DispatcherView),
    Stopped(Halt),
}

/// `Input` as contracts speak of it.
pub enum InputView {
    Tick,
    Payload(Result<Seq<char>, FetchError>),
    CommandEnded(Result<(), ExecError>),
}

/// `Action` as contracts speak of it.
pub enum ActionView {
    AwaitTick,
    ReadFile,
    Request,
    Run(Seq<char>),
    Halt(Halt),
}

/// `Turn` as contracts speak of it.
pub struct TurnView {
    pub evaluation: Option<EvaluationView>,
    pub action: ActionView,
}

/// `SchedulerLoop` as contracts speak of it.
pub struct LoopView {
    pub count: int,
    pub cached_body: Seq<char>,
    pub phase: PhaseView,
}

impl View for Phase {
    type V = PhaseView;

    open spec fn view(&self) -> PhaseView {
        match self {
            Phase::Idle => PhaseView::Idle,
            Phase::Fetching(source) => PhaseView::Fetching(*source),
            Phase::Dispatching(dispatcher) => PhaseView::Dispatching(dispatcher@),
            Phase::Stopped(halt) => PhaseView::Stopped(*halt),
        }
    }
}

impl View for Input {
    type V = InputView;

    open spec fn view(&self) -> InputView {
        match self {
            Input::Tick => InputView::Tick,
            Input::Payload(Ok(body)) => InputView::Payload(Ok(body@)),
            Input::Payload(Err(e)) => InputView::Payload(Err(*e)),
            Input::CommandEnded(outcome) => InputView::CommandEnded(*outcome),
        }
    }
}

impl View for Action {
    type V = ActionView;

    open spec fn view(&self) -> ActionView {
        match self {
            Action::AwaitTick => ActionView::AwaitTick,
            Action::ReadFile => ActionView::ReadFile,
            Action::Request => ActionView::Request,
            Action::Run(command) => ActionView::Run(command@),
            Action::Halt(halt) => ActionView::Halt(*halt),
        }
    }
}

impl View for Turn {
    type V = TurnView;

    open spec fn view(&self) -> TurnView {
        TurnView {
            evaluation: match self.evaluation {
                Some(e) => Some(e@),
                None => None,
            },
            action: self.action@,
        }
    }
}

impl View for SchedulerLoop {
    type V = LoopView;

    open spec fn view(&self) -> LoopView {
        LoopView {
            count: self.scheduler.count as int,
            cached_body: self.scheduler.cached_body@,
            phase: self.phase@,
        }
    }
}

/// The commands that an evaluation hands out; none where it hands out none.
pub open spec fn commands_due(evaluation: EvaluationView) -> Seq<Seq<char>> {
    match evaluation {
        EvaluationView::Upcoming(u) => match u.dispatch {
            Some(commands) => commands,
            None => Seq::empty(),
        },
        EvaluationView::NoUpcomingEvent => Seq::empty(),
    }
}

/// What a loop in this phase is waiting for, as the action that leads to it.
pub open spec fn pending(phase: PhaseView) -> ActionView {
    match phase {
        PhaseView::Idle => ActionView::AwaitTick,
        PhaseView::Fetching(Source::File) => ActionView::ReadFile,
        PhaseView::Fetching(Source::Remote) => ActionView::Request,
        PhaseView::Dispatching(d) => match d.next() {
            Some(command) => ActionView::Run(command),
            None => ActionView::AwaitTick,
        },
        PhaseView::Stopped(halt) => ActionView::Halt(halt),
    }
}

/// The rest of a tick once its payload is in place: the payload is parsed
/// and evaluated at `now`. A payload that is no schedule stops the loop.
/// Where commands are due the first is handed out; otherwise the tick is
/// complete and counted.
pub open spec fn evaluate_step(
    count: int,
    payload: Seq<char>,
    now: Timestamp,
    config: Config,
) -> (LoopView, TurnView) {
    match evaluate_payload(payload, now, config.threshold as int, config.command_texts()) {
        Err(e) => (
            LoopView { count, cached_body: payload, phase: PhaseView::Stopped(Halt::Corrupt(e)) },
            TurnView { evaluation: None, action: ActionView::Halt(Halt::Corrupt(e)) },
        ),
        Ok(evaluation) => {
            let commands = commands_due(evaluation);
            if commands.len() > 0 {
                (
                    LoopView {
                        count,
                        cached_body: payload,
                        phase: PhaseView::Dispatching(
                            DispatcherView { commands, results: Seq::empty() },
                        ),
                    },
                    TurnView { evaluation: Some(evaluation), action: ActionView::Run(commands[0]) },
                )
            } else {
                (
                    LoopView { count: count + 1, cached_body: payload, phase: PhaseView::Idle },
                    TurnView { evaluation: Some(evaluation), action: ActionView::AwaitTick },
                )
            }
        },
    }
}

/// One step of the loop: the state and the turn that follow from a state and
/// an input. An input that the loop is not waiting for changes nothing, and
/// the turn repeats what the loop is waiting for.
pub open spec fn step_spec(
    state: LoopView,
    input: InputView,
    now: Timestamp,
    config: Config,
    from_file: bool,
) -> (LoopView, TurnView) {
    match (state.phase, input) {
        (PhaseView::Idle, InputView::Tick) => match fetch_step_spec(state.count, config, from_file) {
            FetchStep::Reuse => evaluate_step(state.count, state.cached_body, now, config),
            FetchStep::Pinned => evaluate_step(
                state.count,
                pinned_content(config)->Some_0,
                now,
                config,
            ),
            FetchStep::ReadFile => (
                LoopView { phase: PhaseView::Fetching(Source::File), ..state },
                TurnView { evaluation: None, action: ActionView::ReadFile },
            ),
            FetchStep::Request => (
                LoopView { phase: PhaseView::Fetching(Source::Remote), ..state },
                TurnView { evaluation: None, action: ActionView::Request },
            ),
        },
        (PhaseView::Fetching(_), InputView::Payload(Ok(body))) => evaluate_step(
            state.count,
            body,
            now,
            config,
        ),
        (PhaseView::Fetching(_), InputView::Payload(Err(e))) => if is_recoverable(e) {
            (
                LoopView { count: state.count + 1, phase: PhaseView::Idle, ..state },
                TurnView { evaluation: None, action: ActionView::AwaitTick },
            )
        } else {
            (
                LoopView { phase: PhaseView::Stopped(Halt::SourceMissing), ..state },
                TurnView { evaluation: None, action: ActionView::Halt(Halt::SourceMissing) },
            )
        },
        (PhaseView::Dispatching(d), InputView::CommandEnded(outcome)) => {
            let recorded = d.record(outcome);
            match recorded.next() {
                Some(command) => (
                    LoopView { phase: PhaseView::Dispatching(recorded), ..state },
                    TurnView { evaluation: None, action: ActionView::Run(command) },
                ),
                None => (
                    LoopView { count: state.count + 1, phase: PhaseView::Idle, ..state },
                    TurnView { evaluation: None, action: ActionView::AwaitTick },
                ),
            }
        },
        _ => (state, TurnView { evaluation: None, action: pending(state.phase) }),
    }
}

impl SchedulerLoop {
    /// The loop before the first tick.
    pub fn new() -> (r: SchedulerLoop)
        ensures
            r@.count == 0,
            r@.cached_body == "{\"events\" : []}"@,
            r@.phase == PhaseView::Idle,
    {
        SchedulerLoop { scheduler: Scheduler::new(), phase: Phase::Idle }
    }

    /// What the loop is waiting for, as the action that leads to it.
    pub fn pending(&self) -> (action: Action)
        ensures
            action@ == pending(self@.phase),
    {
        match &self.phase {
            Phase::Idle => Action::AwaitTick,
            Phase::Fetching(Source::File) => Action::ReadFile,
            Phase::Fetching(Source::Remote) => Action::Request,
            Phase::Dispatching(dispatcher) => match dispatcher.next_command() {
                Some(command) => Action::Run(command.clone()),
                None => Action::AwaitTick,
            },
            Phase::Stopped(halt) => Action::Halt(*halt),
        }
    }

    /// The rest of a tick once its payload is in place.
    fn evaluate_now(scheduler: Scheduler, now: &Timestamp, config: &Config) -> (r: (SchedulerLoop, Turn))
        requires
            scheduler.count < u32::MAX,
        ensures
            (r.0@, r.1@) == evaluate_step(scheduler@.count, scheduler@.cached_body, *now, *config),
    {
        let mut scheduler = scheduler;
        match scheduler.evaluate(now, config) {
            Err(e) => (
                SchedulerLoop { scheduler, phase: Phase::Stopped(Halt::Corrupt(e)) },
                Turn { evaluation: None, action: Action::Halt(Halt::Corrupt(e)) },
            ),
            Ok(evaluation) => {
                let first = match &evaluation {
                    Evaluation::Upcoming(u) => match &u.dispatch {
                        Some(commands) => if commands.len() > 0 {
                            Some((clone_texts(commands), commands[0].clone()))
                        } else {
                            None
                        },
                        None => None,
                    },
                    Evaluation::NoUpcomingEvent => None,
                };
                match first {
                    Some((commands, command)) => {
                        let dispatcher = Dispatcher::new(commands);
                        (
                            SchedulerLoop { scheduler, phase: Phase::Dispatching(dispatcher) },
                            Turn { evaluation: Some(evaluation), action: Action::Run(command) },
                        )
                    },
                    None => {
                        scheduler.complete_tick();
                        (
                            SchedulerLoop { scheduler, phase: Phase::Idle },
                            Turn { evaluation: Some(evaluation), action: Action::AwaitTick },
                        )
                    },
                }
            },
        }
    }

    /// Takes one step: given what has just happened, moves to the next state
    /// and says what is to be done next. `now` is the moment of the step, and
    /// `from_file` says whether a local file was named at start-up.
    pub fn step(self, input: Input, now: &Timestamp, config: &Config, from_file: bool) -> (r: (
        SchedulerLoop,
        Turn,
    ))
        requires
            config.fetch_cadence_spec() != 0,
            self.scheduler.count < u32::MAX,
        ensures
            (r.0@, r.1@) == step_spec(self@, input@, *now, *config, from_file),
    {
        let SchedulerLoop { scheduler, phase } = self;
        let mut scheduler = scheduler;
        match phase {
            Phase::Idle => match input {
                Input::Tick => match scheduler.begin_tick(config, from_file) {
                    FetchStep::Reuse | FetchStep::Pinned => SchedulerLoop::evaluate_now(
                        scheduler,
                        now,
                        config,
                    ),
                    FetchStep::ReadFile => (
                        SchedulerLoop { scheduler, phase: Phase::Fetching(Source::File) },
                        Turn { evaluation: None, action: Action::ReadFile },
                    ),
                    FetchStep::Request => (
                        SchedulerLoop { scheduler, phase: Phase::Fetching(Source::Remote) },
                        Turn { evaluation: None, action: Action::Request },
                    ),
                },
                _ => (
                    SchedulerLoop { scheduler, phase: Phase::Idle },
                    Turn { evaluation: None, action: Action::AwaitTick },
                ),
            },
            Phase::Fetching(source) => match input {
                Input::Payload(outcome) => match scheduler.record_fetch(outcome) {
                    TickProgress::Proceed => SchedulerLoop::evaluate_now(scheduler, now, config),
                    TickProgress::Skip => (
                        SchedulerLoop { scheduler, phase: Phase::Idle },
                        Turn { evaluation: None, action: Action::AwaitTick },
                    ),
                    TickProgress::Abort => (
                        SchedulerLoop { scheduler, phase: Phase::Stopped(Halt::SourceMissing) },
                        Turn { evaluation: None, action: Action::Halt(Halt::SourceMissing) },
                    ),
                },
                _ => {
                    let waiting = SchedulerLoop { scheduler, phase: Phase::Fetching(source) };
                    let action = waiting.pending();
                    (waiting, Turn { evaluation: None, action })
                },
            },
            Phase::Dispatching(dispatcher) => match input {
                Input::CommandEnded(outcome) => {
                    let mut dispatcher = dispatcher;
                    dispatcher.record(outcome);
                    let next = match dispatcher.next_command() {
                        Some(command) => Some(command.clone()),
                        None => None,
                    };
                    match next {
                        Some(command) => (
                            SchedulerLoop { scheduler, phase: Phase::Dispatching(dispatcher) },
                            Turn { evaluation: None, action: Action::Run(command) },
                        ),
                        None => {
                            scheduler.complete_tick();
                            (
                                SchedulerLoop { scheduler, phase: Phase::Idle },
                                Turn { evaluation: None, action: Action::AwaitTick },
                            )
                        },
                    }
                },
                _ => {
                    let waiting = SchedulerLoop { scheduler, phase: Phase::Dispatching(dispatcher) };
                    let action = waiting.pending();
                    (waiting, Turn { evaluation: None, action })
                },
            },
            Phase::Stopped(halt) => (
                SchedulerLoop { scheduler, phase: Phase::Stopped(halt) },
                Turn { evaluation: None, action: Action::Halt(halt) },
            ),
        }
    }
}

impl Halt {
    /// The exit code with which the process stops.
    pub fn exit_code(&self) -> (code: i32)
        ensures
            code == 1,
    {
        1
    }
}

/// Whether a state is one that the loop can be in: while a dispatch is under
/// way, a command of it is still to end.
pub open spec fn is_consistent(state: LoopView) -> bool {
    state.phase matches PhaseView::Dispatching(d) ==> d.next() is Some
}

/// Every step leads from a state that the loop can be in to another such
/// state, and the turn names what the new state is waiting for.
pub proof fn law_step_keeps_consistency(
    state: LoopView,
    input: InputView,
    now: Timestamp,
    config: Config,
    from_file: bool,
)
    requires
        is_consistent(state),
    ensures
        is_consistent(step_spec(state, input, now, config, from_file).0),
        step_spec(state, input, now, config, from_file).1.action == pending(
            step_spec(state, input, now, config, from_file).0.phase,
        ),
{
}

/// On a tick a payload is asked for only where a fetch is due: on the ticks
/// whose count is a multiple of the cadence. On every other tick the cached
/// payload stays as it is and is the one that is evaluated.
pub proof fn law_fetch_only_when_due(state: LoopView, now: Timestamp, config: Config, from_file: bool)
    requires
        state.phase is Idle,
    ensures
        ({
            let (next, turn) = step_spec(state, InputView::Tick, now, config, from_file);
            let due = is_fetch_due(state.count, config.fetch_cadence_spec() as int);
            &&& turn.action is ReadFile || turn.action is Request ==> due
            &&& next.cached_body != state.cached_body ==> due
            &&& !due ==> (next, turn) == evaluate_step(state.count, state.cached_body, now, config)
        }),
{
}

/// A fetch that fails for now ends the tick there and then: the cached
/// payload stays as it was, nothing is evaluated, no command is handed out,
/// the tick is counted like any other, and the loop waits for the next tick.
pub proof fn law_failed_fetch_skips_tick(
    state: LoopView,
    error: FetchError,
    now: Timestamp,
    config: Config,
    from_file: bool,
)
    requires
        state.phase is Fetching,
        is_recoverable(error),
    ensures
        ({
            let (next, turn) = step_spec(
                state,
                InputView::Payload(Err(error)),
                now,
                config,
                from_file,
            );
            &&& next.count == state.count + 1
            &&& next.cached_body == state.cached_body
            &&& next.phase is Idle
            &&& turn.evaluation is None
            &&& turn.action is AwaitTick
        }),
{
}

/// A skipped tick does not bring the next fetch forward. Where the fetch of
/// a tick whose count is a multiple of the cadence fails for now, the tick
/// after it has the next count, no payload is asked for on any tick before
/// the next multiple of the cadence, and on that tick the payload is sought
/// where it was sought before.
pub proof fn law_skipped_fetch_waits_for_next_multiple(
    state: LoopView,
    error: FetchError,
    later: LoopView,
    now: Timestamp,
    config: Config,
    from_file: bool,
)
    requires
        state.phase is Fetching,
        is_recoverable(error),
        0 <= state.count,
        config.fetch_cadence_spec() > 0,
        is_fetch_due(state.count, config.fetch_cadence_spec() as int),
        later.phase is Idle,
        state.count < later.count < state.count + config.fetch_cadence_spec(),
    ensures
        ({
            let cadence = config.fetch_cadence_spec() as int;
            let skipped = step_spec(state, InputView::Payload(Err(error)), now, config, from_file).0;
            let (next, turn) = step_spec(later, InputView::Tick, now, config, from_file);
            &&& skipped.count == state.count + 1
            &&& !(turn.action is ReadFile) && !(turn.action is Request)
            &&& next.cached_body == later.cached_body
            &&& is_fetch_due(state.count + cadence, cadence)
            &&& fetch_step_spec(state.count + cadence, config, from_file) == fetch_step_spec(
                state.count,
                config,
                from_file,
            )
        }),
{
    law_next_fetch_is_a_cadence_later(state.count, config.fetch_cadence_spec() as int);
}

/// While a dispatch is under way, the end of one command leads to the next
/// command in order, however the one before it ended; the end of the last
/// command completes the tick.
pub proof fn law_failed_command_does_not_stop_dispatch(
    state: LoopView,
    outcome: Result<(), ExecError>,
    now: Timestamp,
    config: Config,
    from_file: bool,
)
    requires
        state.phase is Dispatching,
        is_consistent(state),
    ensures
        ({
            let d = state.phase->Dispatching_0;
            let ran = d.results.len() as int;
            let (next, turn) = step_spec(
                state,
                InputView::CommandEnded(outcome),
                now,
                config,
                from_file,
            );
            &&& ran + 1 < d.commands.len() ==> turn.action == ActionView::Run(d.commands[ran + 1])
                && next.phase == PhaseView::Dispatching(d.record(outcome)) && next.count
                == state.count
            &&& ran + 1 == d.commands.len() ==> turn.action is AwaitTick && next.phase is Idle
                && next.count == state.count + 1
            &&& next.cached_body == state.cached_body
        }),
{
}

/// A command is handed out after an evaluation only where the evaluation
/// found an upcoming event fewer minutes away than the threshold; where it
/// found no upcoming event, the loop waits for the next tick.
pub proof fn law_commands_only_within_threshold(
    state: LoopView,
    input: InputView,
    now: Timestamp,
    config: Config,
    from_file: bool,
)
    ensures
        ({
            let turn = step_spec(state, input, now, config, from_file).1;
            &&& turn.evaluation == Some(EvaluationView::NoUpcomingEvent) ==> turn.action is AwaitTick
            &&& turn.evaluation is Some && turn.action is Run ==> {
                &&& turn.evaluation->Some_0 matches EvaluationView::Upcoming(u)
                &&& u.minutes < config.threshold
                &&& u.dispatch == Some(config.command_texts())
                &&& turn.action == ActionView::Run(config.command_texts()[0])
            }
        }),
{
}

/// Once stopped, the loop stays stopped.
pub proof fn law_stopped_stays_stopped(
    state: LoopView,
    input: InputView,
    now: Timestamp,
    config: Config,
    from_file: bool,
)
    requires
        state.phase is Stopped,
    ensures
        step_spec(state, input, now, config, from_file).0 == state,
        step_spec(state, input, now, config, from_file).1.action == ActionView::Halt(
            state.phase->Stopped_0,
        ),
{
}

} // verus!
