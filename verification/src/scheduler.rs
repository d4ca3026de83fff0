//! The state that the loop carries from tick to tick, and the decisions that
//! change it: when to fetch, from where, and what a fetch leaves behind.

use vstd::prelude::*;
use crate::area_information::{read_payload, AreaInformation, EventView, ParseError};
use crate::config::Config;
use crate::evaluation::{evaluate, evaluate_spec, Evaluation, EvaluationView};
use crate::timestamp::Timestamp;

verus! {

/// Where a tick gets its payload from.
#[derive(Clone, Copy, Debug, PartialEq, Eq, Structural)]
pub enum FetchStep {
    /// No fetch is due, or nothing is configured to fetch from: the cached
    /// payload is used as it is.
    Reuse,
    /// The pinned response of the configuration takes the place of a fetch.
    Pinned,
    /// The payload is read from the local file named at start-up.
    ReadFile,
    /// The payload is requested from the configured URL.
    Request,
}

/// Why a fetch brought no payload.
#[derive(Clone, Copy, Debug, PartialEq, Eq, Structural)]
pub enum FetchError {
    /// The host could not be reached.
    Unreachable,
    /// The response's body could not be read as text.
    Unreadable,
    /// The local file named at start-up could not be read.
    MissingFile,
}

/// How a tick goes on after its fetch.
#[derive(Clone, Copy, Debug, PartialEq, Eq, Structural)]
pub enum TickProgress {
    /// The payload is in place: parse and evaluate it.
    Proceed,
    /// The fetch failed for now: the tick ends here, counted like any other,
    /// and the next fetch waits for the next tick on which one is due.
    Skip,
    /// The fetch cannot succeed as configured: stop the scheduler.
    Abort,
}

/// The state carried from tick to tick.
#[derive(Debug)]
pub struct Scheduler {
    /// Ticks completed so far.
    pub count: u32,
    /// The payload of the last successful fetch.
    pub cached_body: String,
}

/// `Scheduler` as contracts speak of it.
pub struct SchedulerView {
    pub count: int,
    pub cached_body: Seq<char>,
}

impl View for Scheduler {
    type V = SchedulerView;

    open spec fn view(&self) -> SchedulerView {
        SchedulerView { count: self.count as int, cached_body: self.cached_body@ }
    }
}

/// Whether a fetch is due on the tick with this count, at a cadence of
/// `cadence` ticks.
pub open spec fn is_fetch_due(count: int, cadence: int) -> bool
    recommends
        cadence > 0,
{
    count % cadence == 0
}

/// Whether a fetch error is one that the next fetch may not repeat.
pub open spec fn is_recoverable(error: FetchError) -> bool {
    error != FetchError::MissingFile
}

/// The content of the response that the configuration pins, if it pins one.
pub open spec fn pinned_content(config: Config) -> Option<Seq<char>> {
    match config.fetch {
        Some(f) => match f.response {
            Some(p) => Some(p.content@),
            None => None,
        },
        None => None,
    }
}

/// Where the tick with this count gets its payload from. A pinned response
/// comes before a local file, and a local file before the URL.
pub open spec fn fetch_step_spec(count: int, config: Config, from_file: bool) -> FetchStep {
    if !is_fetch_due(count, config.fetch_cadence_spec() as int) {
        FetchStep::Reuse
    } else if pinned_content(config) is Some {
        FetchStep::Pinned
    } else if from_file {
        FetchStep::ReadFile
    } else if config.fetch is Some {
        FetchStep::Request
    } else {
        FetchStep::Reuse
    }
}

/// The state after the fetch step of a tick has been decided: a pinned
/// response replaces the cached payload, every other step leaves the state as
/// it was.
pub open spec fn after_step(state: SchedulerView, config: Config, step: FetchStep) -> SchedulerView {
    match pinned_content(config) {
        Some(content) if step == FetchStep::Pinned => SchedulerView {
            count: state.count,
            cached_body: content,
        },
        _ => state,
    }
}

/// The state after a fetch has ended. A payload replaces the cached one, and
/// the tick goes on. A failure leaves the cached payload as it was: where it
/// may not repeat, the tick ends there and is counted; where it will repeat,
/// nothing changes.
pub open spec fn after_fetch(state: SchedulerView, outcome: Result<Seq<char>, FetchError>) -> SchedulerView {
    match outcome {
        Ok(body) => SchedulerView { count: state.count, cached_body: body },
        Err(e) => if is_recoverable(e) {
            SchedulerView { count: state.count + 1, cached_body: state.cached_body }
        } else {
            state
        },
    }
}

/// How the tick goes on after a fetch has ended.
pub open spec fn progress_after(outcome: Result<Seq<char>, FetchError>) -> TickProgress {
    match outcome {
        Ok(_) => TickProgress::Proceed,
        Err(e) => if is_recoverable(e) {
            TickProgress::Skip
        } else {
            TickProgress::Abort
        },
    }
}

/// The evaluation of a cached payload at the moment `now`.
pub open spec fn evaluate_payload(
    payload: Seq<char>,
    now: Timestamp,
    threshold: int,
    commands: Seq<Seq<char>>,
) -> Result<EvaluationView, ParseError> {
    match read_payload(payload) {
        Ok(events) => Ok(evaluate_spec(events, now, threshold, commands)),
        Err(e) => Err(e),
    }
}

impl FetchError {
    /// Whether the tick is merely skipped after this error.
    pub fn is_recoverable(&self) -> (r: bool)
        ensures
            r == is_recoverable(*self),
    {
        match self {
            FetchError::MissingFile => false,
            _ => true,
        }
    }
}

impl Scheduler {
    /// The state before the first tick: no tick counted, and an empty
    /// schedule as the cached payload.
    pub fn new() -> (r: Scheduler)
        ensures
            r@.count == 0,
            r@.cached_body == "{\"events\" : []}"@,
    {
        Scheduler { count: 0, cached_body: "{\"events\" : []}".to_string() }
    }

    /// Whether a fetch is due on this tick.
    pub fn fetch_is_due(&self, config: &Config) -> (r: bool)
        requires
            config.fetch_cadence_spec() != 0,
        ensures
            r == is_fetch_due(self@.count, config.fetch_cadence_spec() as int),
    {
        self.count % config.fetch_cadence() == 0
    }

    /// Opens a tick: decides where its payload comes from and, where the
    /// configuration pins a response, puts that response in place of the
    /// cached payload. `from_file` says whether a local file was named at
    /// start-up.
    pub fn begin_tick(&mut self, config: &Config, from_file: bool) -> (step: FetchStep)
        requires
            config.fetch_cadence_spec() != 0,
        ensures
            step == fetch_step_spec(old(self)@.count, *config, from_file),
            final(self)@ == after_step(old(self)@, *config, step),
            step != FetchStep::Pinned ==> *final(self) == *old(self),
    {
        if !self.fetch_is_due(config) {
            return FetchStep::Reuse;
        }
        match &config.fetch {
            Some(fetch) => match &fetch.response {
                Some(pinned) => {
                    self.cached_body = pinned.content.clone();
                    FetchStep::Pinned
                },
                None => if from_file {
                    FetchStep::ReadFile
                } else {
                    FetchStep::Request
                },
            },
            None => if from_file {
                FetchStep::ReadFile
            } else {
                FetchStep::Reuse
            },
        }
    }

    /// Takes in what a fetch brought. A payload replaces the cached one. A
    /// failure leaves the cached payload as it was: the tick is skipped and
    /// counted, or the scheduler stopped where the failure is one that will
    /// repeat.
    pub fn record_fetch(&mut self, outcome: Result<String, FetchError>) -> (progress: TickProgress)
        requires
            old(self).count < u32::MAX,
        ensures
            final(self)@ == after_fetch(
                old(self)@,
                match outcome {
                    Ok(body) => Ok(body@),
                    Err(e) => Err(e),
                },
            ),
            progress == progress_after(
                match outcome {
                    Ok(body) => Ok(body@),
                    Err(e) => Err(e),
                },
            ),
            outcome is Err ==> final(self).cached_body == old(self).cached_body,
    {
        match outcome {
            Ok(body) => {
                self.cached_body = body;
                TickProgress::Proceed
            },
            Err(e) => if e.is_recoverable() {
                self.count = self.count + 1;
                TickProgress::Skip
            } else {
                TickProgress::Abort
            },
        }
    }

    /// Parses the cached payload and evaluates it at the moment `now`. A
    /// payload that is no schedule is reported, never taken for an empty one.
    pub fn evaluate(&self, now: &Timestamp, config: &Config) -> (r: Result<Evaluation, ParseError>)
        ensures
            match r {
                Ok(evaluation) => evaluate_payload(
                    self@.cached_body,
                    *now,
                    config.threshold as int,
                    config.command_texts(),
                ) == Ok::<EvaluationView, ParseError>(evaluation@),
                Err(e) => evaluate_payload(
                    self@.cached_body,
                    *now,
                    config.threshold as int,
                    config.command_texts(),
                ) == Err::<EvaluationView, ParseError>(e),
            },
    {
        match AreaInformation::new(self.cached_body.as_str()) {
            Ok(area) => Ok(evaluate(&area, now, config)),
            Err(e) => Err(e),
        }
    }

    /// Closes a tick that ran to its end: counts it. A tick that a failed
    /// fetch cut short has been counted by `record_fetch`.
    pub fn complete_tick(&mut self)
        requires
            old(self).count < u32::MAX,
        ensures
            final(self)@.count == old(self)@.count + 1,
            final(self)@.cached_body == old(self)@.cached_body,
    {
        self.count = self.count + 1;
    }
}

/// A fetch is due on the ticks whose count is a multiple of the cadence:
/// `0`, `cadence`, twice `cadence` and so on, and on no other tick.
pub proof fn law_fetch_cadence(count: int, cadence: int)
    requires
        0 <= count,
        0 < cadence,
    ensures
        is_fetch_due(count, cadence) <==> exists|k: int| 0 <= k && count == #[trigger] (k * cadence),
        is_fetch_due(0, cadence),
{
    if is_fetch_due(count, cadence) {
        let k = count / cadence;
        assert(count == k * cadence + count % cadence) by (nonlinear_arith)
            requires
                cadence > 0,
                k == count / cadence,
        ;
        assert(0 <= k) by (nonlinear_arith)
            requires
                cadence > 0,
                count >= 0,
                k == count / cadence,
        ;
        assert(count == k * cadence);
    }
    if exists|k: int| 0 <= k && count == #[trigger] (k * cadence) {
        let k = choose|k: int| 0 <= k && count == #[trigger] (k * cadence);
        assert((k * cadence) % cadence == 0) by (nonlinear_arith)
            requires
                cadence > 0,
        ;
    }
}

/// On a tick on which no fetch is due the cached payload is used as it is,
/// whatever the configuration names as a source.
pub proof fn law_reuse_between_fetches(state: SchedulerView, config: Config, from_file: bool)
    requires
        !is_fetch_due(state.count, config.fetch_cadence_spec() as int),
    ensures
        fetch_step_spec(state.count, config, from_file) == FetchStep::Reuse,
        after_step(state, config, fetch_step_spec(state.count, config, from_file)) == state,
{
}

/// A failed fetch leaves the cached payload as it was and ends the tick's
/// work. Where the failure may not repeat, the tick is skipped and counted
/// like any other; where it will repeat, the scheduler is stopped.
pub proof fn law_failed_fetch_keeps_payload(state: SchedulerView, error: FetchError)
    ensures
        after_fetch(state, Err(error)).cached_body == state.cached_body,
        progress_after(Err(error)) != TickProgress::Proceed,
        is_recoverable(error) ==> progress_after(Err(error)) == TickProgress::Skip && after_fetch(
            state,
            Err(error),
        ).count == state.count + 1,
        !is_recoverable(error) ==> progress_after(Err(error)) == TickProgress::Abort
            && after_fetch(state, Err(error)) == state,
{
}

/// From a tick on which a fetch is due, the next tick on which one is due is
/// a whole cadence later: on none of the ticks in between is a fetch due,
/// whether the fetch succeeded or the tick was skipped.
pub proof fn law_next_fetch_is_a_cadence_later(count: int, cadence: int)
    requires
        0 <= count,
        0 < cadence,
        is_fetch_due(count, cadence),
    ensures
        forall|later: int| count < later < count + cadence ==> !is_fetch_due(later, cadence),
        is_fetch_due(count + cadence, cadence),
{
    assert forall|later: int| count < later < count + cadence implies !is_fetch_due(
        later,
        cadence,
    ) by {
        assert(later % cadence != 0) by (nonlinear_arith)
            requires
                0 <= count,
                0 < cadence,
                count % cadence == 0,
                count < later < count + cadence,
        ;
    }
    assert((count + cadence) % cadence == 0) by (nonlinear_arith)
        requires
            0 <= count,
            0 < cadence,
            count % cadence == 0,
    ;
}

} // verus!
