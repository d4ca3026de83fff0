//! Running the configured commands one after another, each on its own
//! account: what one command does decides nothing about the next.

use vstd::prelude::*;
use crate::config::texts;

verus! {

/// Why a command counts as failed.
#[derive(Clone, Copy, Debug, PartialEq, Eq, Structural)]
pub enum ExecError {
    /// The shell could not be started for the command.
    Spawn,
    /// The command's end could not be awaited.
    Wait,
    /// The command ended with this exit code, which is not zero.
    Exit(i32),
    /// The command ended without an exit code, as when a signal kills it.
    Abnormal,
}

/// What became of a command: `None` inside stands for an end without an exit
/// code.
pub open spec fn classify_spec(spawned: bool, ended: Option<Option<i32>>) -> Result<(), ExecError> {
    if !spawned {
        Err(ExecError::Spawn)
    } else {
        match ended {
            None => Err(ExecError::Wait),
            Some(None) => Err(ExecError::Abnormal),
            Some(Some(code)) => if code == 0 {
                Ok(())
            } else {
                Err(ExecError::Exit(code))
            },
        }
    }
}

/// Judges one run of a command from what the operating system reported:
/// whether the shell started, and, where its end was awaited, the exit code
/// it ended with, if any. Only an exit code of zero is a success.
pub fn classify(spawned: bool, ended: Option<Option<i32>>) -> (r: Result<(), ExecError>)
    ensures
        r == classify_spec(spawned, ended),
{
    if !spawned {
        return Err(ExecError::Spawn);
    }
    match ended {
        None => Err(ExecError::Wait),
        Some(None) => Err(ExecError::Abnormal),
        Some(Some(code)) => if code == 0 {
            Ok(())
        } else {
            Err(ExecError::Exit(code))
        },
    }
}

/// One dispatch of a list of commands: which have run, how each ended, and
/// which is next.
#[derive(Debug)]
pub struct Dispatcher {
    commands: Vec<String>,
    results: Vec<Result<(), ExecError>>,
}

/// `Dispatcher` as contracts speak of it.
pub struct DispatcherView {
    /// The commands, in the order in which they run.
    pub commands: Seq<Seq<char>>,
    /// How the commands that have run ended, in the same order.
    pub results: Seq<Result<(), ExecError>>,
}

impl DispatcherView {
    /// The command to run next; `None` once every command has run.
    pub open spec fn next(self) -> Option<Seq<char>> {
        if self.results.len() < self.commands.len() {
            Some(self.commands[self.results.len() as int])
        } else {
            None
        }
    }

    /// The dispatch after its next command has ended as `outcome` says. Once
    /// every command has run there is nothing to record.
    pub open spec fn record(self, outcome: Result<(), ExecError>) -> DispatcherView {
        if self.results.len() < self.commands.len() {
            DispatcherView { commands: self.commands, results: self.results.push(outcome) }
        } else {
            self
        }
    }

    /// The dispatch after its next commands have ended as `outcomes` say, one
    /// after another.
    pub open spec fn record_all(self, outcomes: Seq<Result<(), ExecError>>) -> DispatcherView
        decreases outcomes.len(),
    {
        if outcomes.len() == 0 {
            self
        } else {
            self.record_all(outcomes.drop_last()).record(outcomes.last())
        }
    }
}

impl View for Dispatcher {
    type V = DispatcherView;

    closed spec fn view(&self) -> DispatcherView {
        DispatcherView { commands: texts(self.commands@), results: self.results@ }
    }
}

impl Dispatcher {
    /// A dispatch of `commands` of which none has run yet.
    pub fn new(commands: Vec<String>) -> (r: Dispatcher)
        ensures
            r@.commands == texts(commands@),
            r@.results == Seq::<Result<(), ExecError>>::empty(),
    {
        Dispatcher { commands, results: Vec::new() }
    }

    /// The command to run next; `None` once every command has run.
    pub fn next_command(&self) -> (r: Option<&String>)
        ensures
            match r {
                Some(c) => self@.next() == Some(c@),
                None => self@.next() is None,
            },
    {
        if self.results.len() < self.commands.len() {
            Some(&self.commands[self.results.len()])
        } else {
            None
        }
    }

    /// Whether every command has run.
    pub fn is_finished(&self) -> (r: bool)
        ensures
            r == (self@.next() is None),
    {
        self.results.len() >= self.commands.len()
    }

    /// Records how the command that `next_command` named has ended, and moves
    /// on to the one after it, whatever the outcome. Returns whether there
    /// was a command to record the outcome for.
    pub fn record(&mut self, outcome: Result<(), ExecError>) -> (recorded: bool)
        ensures
            final(self)@ == old(self)@.record(outcome),
            recorded == (old(self)@.next() is Some),
    {
        if self.results.len() < self.commands.len() {
            self.results.push(outcome);
            true
        } else {
            false
        }
    }

    /// How the commands that have run ended, in the order in which they ran.
    pub fn results(&self) -> (r: &Vec<Result<(), ExecError>>)
        ensures
            r@ == self@.results,
    {
        &self.results
    }
}

/// Recording an outcome keeps the commands and every earlier result, and adds
/// the outcome as the result of the command that ran.
pub proof fn law_results_are_kept(d: DispatcherView, outcome: Result<(), ExecError>)
    requires
        d.results.len() < d.commands.len(),
    ensures
        d.record(outcome).commands == d.commands,
        d.record(outcome).results.len() == d.results.len() + 1,
        d.record(outcome).results[d.results.len() as int] == outcome,
        forall|i: int| 0 <= i < d.results.len() ==> d.record(outcome).results[i] == d.results[i],
{
}

/// Which command runs next does not depend on how the one before it ended: a
/// failure holds back no later command.
pub proof fn law_failure_does_not_stop_dispatch(
    d: DispatcherView,
    one: Result<(), ExecError>,
    other: Result<(), ExecError>,
)
    ensures
        d.record(one).next() == d.record(other).next(),
        d.results.len() + 1 < d.commands.len() ==> d.record(one).next() == Some(
            d.commands[d.results.len() as int + 1],
        ),
{
}

/// From a fresh dispatch, whatever the outcomes: once `k` commands have run,
/// the results are exactly their outcomes in order, and the next command is
/// the one at position `k`, until all have run.
pub proof fn law_every_command_runs(commands: Seq<Seq<char>>, outcomes: Seq<Result<(), ExecError>>)
    requires
        outcomes.len() <= commands.len(),
    ensures
        ({
            let fresh = DispatcherView { commands, results: Seq::empty() };
            let d = fresh.record_all(outcomes);
            &&& d.commands == commands
            &&& d.results == outcomes
            &&& outcomes.len() < commands.len() ==> d.next() == Some(commands[outcomes.len() as int])
            &&& outcomes.len() == commands.len() ==> d.next() is None
        }),
    decreases outcomes.len(),
{
    let fresh = DispatcherView { commands, results: Seq::empty() };
    if outcomes.len() == 0 {
        assert(fresh.record_all(outcomes).results =~= outcomes);
    } else {
        law_every_command_runs(commands, outcomes.drop_last());
        let before = fresh.record_all(outcomes.drop_last());
        assert(before.results.push(outcomes.last()) =~= outcomes);
    }
}

} // verus!
