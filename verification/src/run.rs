//! The ways to drive the subprocess, and how each of them ends.

use vstd::prelude::*;

verus! {

/// How a run is driven.
#[derive(Debug, Clone, Copy, PartialEq, Eq, Structural)]
pub enum RunMode {
    /// The RPC protocol on standard output.
    Rpc,
    /// The interactive display in this process.
    Tui,
    /// Neither.
    Headless,
}

/// The mode that the two switches ask for. RPC comes first.
pub open spec fn mode_of(rpc: bool, tui: bool) -> RunMode {
    if rpc {
        RunMode::Rpc
    } else if tui {
        RunMode::Tui
    } else {
        RunMode::Headless
    }
}

/// The mode that the two switches ask for.
pub fn run_mode(rpc: bool, tui: bool) -> (mode: RunMode)
    ensures
        mode == mode_of(rpc, tui),
{
    if rpc {
        RunMode::Rpc
    } else if tui {
        RunMode::Tui
    } else {
        RunMode::Headless
    }
}

impl RunMode {
    /// Whether the subprocess leads a process group of its own, so that the whole tree
    /// can be stopped. A headless one stays in the group of this process.
    pub fn own_process_group(self) -> (own: bool)
        ensures
            own == (self != RunMode::Headless),
    {
        match self {
            RunMode::Rpc => true,
            RunMode::Tui => true,
            RunMode::Headless => false,
        }
    }
}

/// Go on when the subprocess has been spawned; nothing where it could not be. A run
/// without its subprocess is over.
pub fn spawned<P>(child: Option<P>) -> (started: Result<P, RunFailure>)
    ensures
        match (child, started) {
            (Some(running), Ok(kept)) => kept == running,
            (None, Err(failure)) => failure == RunFailure::Spawn,
            _ => false,
        },
{
    match child {
        Some(running) => Ok(running),
        None => Err(RunFailure::Spawn),
    }
}

/// Where a run failed.
#[derive(Debug, Clone, Copy, PartialEq, Eq, Structural)]
pub enum RunFailure {
    /// The subprocess did not start.
    Spawn,
    /// The task that waits for the subprocess could not be joined.
    WaitJoin,
    /// The blocking wait for the subprocess panicked.
    WaitPanicked,
    /// The blocking headless run panicked.
    RunPanicked,
    /// The subprocess failed, or its result could not be read.
    Run,
    /// The display failed.
    Render,
}

/// What is reported for a failure.
pub open spec fn failure_text(failure: RunFailure) -> Seq<char> {
    match failure {
        RunFailure::Spawn => "spawning the autoloop subprocess"@,
        RunFailure::WaitJoin => "autoloop wait join failed"@,
        RunFailure::WaitPanicked => "autoloop wait task panicked"@,
        RunFailure::RunPanicked => "autoloop run task panicked"@,
        RunFailure::Run => "autoloop run failed"@,
        RunFailure::Render => "TUI render loop failed"@,
    }
}

impl RunFailure {
    /// What is reported for the failure.
    pub fn message(self) -> (text: &'static str)
        ensures
            text@ == failure_text(self),
    {
        match self {
            RunFailure::Spawn => "spawning the autoloop subprocess",
            RunFailure::WaitJoin => "autoloop wait join failed",
            RunFailure::WaitPanicked => "autoloop wait task panicked",
            RunFailure::RunPanicked => "autoloop run task panicked",
            RunFailure::Run => "autoloop run failed",
            RunFailure::Render => "TUI render loop failed",
        }
    }

    /// Whether the error behind the failure is the display's. Behind all
    /// others is an error of the subprocess or of the wait for it.
    pub fn is_of_display(self) -> (display: bool)
        ensures
            display == (self == RunFailure::Render),
    {
        match self {
            RunFailure::Render => true,
            _ => false,
        }
    }
}

/// How the task that waits for the subprocess ended. `S` is the run's summary.
#[derive(Debug)]
pub enum Waited<S> {
    /// The task could not be joined.
    JoinFailed,
    /// The blocking wait inside it panicked.
    Panicked,
    /// The wait ended with an error.
    Failed,
    /// The subprocess ended and reported a summary.
    Finished(S),
}

/// How the blocking headless run ended.
#[derive(Debug)]
pub enum Ran<S> {
    /// The blocking task panicked.
    Panicked,
    /// The run ended with an error.
    Failed,
    /// The subprocess ended and reported a summary.
    Finished(S),
}

/// The outcome of a run that is only waited for.
pub open spec fn waited_outcome<S>(waited: Waited<S>) -> Result<S, RunFailure> {
    match waited {
        Waited::JoinFailed => Err(RunFailure::WaitJoin),
        Waited::Panicked => Err(RunFailure::WaitPanicked),
        Waited::Failed => Err(RunFailure::Run),
        Waited::Finished(summary) => Ok(summary),
    }
}

/// The outcome of a run with the display: a wait that could not be joined comes first,
/// then a failure of the display, then whatever the wait brought.
pub open spec fn displayed_outcome<S>(waited: Waited<S>, rendered: bool) -> Result<S, RunFailure> {
    if waited is JoinFailed {
        Err(RunFailure::WaitJoin)
    } else if !rendered {
        Err(RunFailure::Render)
    } else {
        waited_outcome(waited)
    }
}

/// The outcome of a headless run.
pub open spec fn headless_result<S>(ran: Ran<S>) -> Result<S, RunFailure> {
    match ran {
        Ran::Panicked => Err(RunFailure::RunPanicked),
        Ran::Failed => Err(RunFailure::Run),
        Ran::Finished(summary) => Ok(summary),
    }
}

/// The outcome of a run that is only waited for.
pub fn wait_outcome<S>(waited: Waited<S>) -> (outcome: Result<S, RunFailure>)
    ensures
        outcome == waited_outcome(waited),
{
    match waited {
        Waited::JoinFailed => Err(RunFailure::WaitJoin),
        Waited::Panicked => Err(RunFailure::WaitPanicked),
        Waited::Failed => Err(RunFailure::Run),
        Waited::Finished(summary) => Ok(summary),
    }
}

/// A run whose display has returned.
#[derive(Debug)]
pub struct DisplayReturned {
    kill: bool,
    rendered: bool,
}

impl DisplayReturned {
    /// Whether the subprocess tree must be stopped.
    pub closed spec fn kill(self) -> bool {
        self.kill
    }

    /// Whether the display returned without an error.
    pub closed spec fn rendered(self) -> bool {
        self.rendered
    }

    /// Go on when the display has returned. `completed` tells whether the subprocess had
    /// ended by itself; if not, the user quit the display, which does not end the
    /// subprocess, so its tree must be stopped.
    pub fn new(completed: bool, rendered: bool) -> (returned: DisplayReturned)
        ensures
            returned.kill() == !completed,
            returned.rendered() == rendered,
    {
        DisplayReturned { kill: !completed, rendered }
    }

    /// Whether the subprocess tree must be stopped.
    pub fn must_kill(&self) -> (kill: bool)
        ensures
            kill == self.kill(),
    {
        self.kill
    }

    /// Whether the reader that feeds the display is waited for, once the task that waits
    /// for the subprocess has ended. It is not when that task could not be joined.
    pub fn joins_reader<S>(&self, waited: &Waited<S>) -> (joins: bool)
        ensures
            joins == !(*waited is JoinFailed),
    {
        match waited {
            Waited::JoinFailed => false,
            _ => true,
        }
    }

    /// The outcome of the run, once the task that waits for the subprocess has ended.
    pub fn outcome<S>(self, waited: Waited<S>) -> (outcome: Result<S, RunFailure>)
        ensures
            outcome == displayed_outcome(waited, self.rendered()),
    {
        match waited {
            Waited::JoinFailed => Err(RunFailure::WaitJoin),
            other => {
                if !self.rendered {
                    Err(RunFailure::Render)
                } else {
                    wait_outcome(other)
                }
            },
        }
    }
}

/// The outcome of a headless run.
pub fn headless_outcome<S>(ran: Ran<S>) -> (outcome: Result<S, RunFailure>)
    ensures
        outcome == headless_result(ran),
{
    match ran {
        Ran::Panicked => Err(RunFailure::RunPanicked),
        Ran::Failed => Err(RunFailure::Run),
        Ran::Finished(summary) => Ok(summary),
    }
}

/// Every way to run succeeds exactly with the summary that the subprocess reported, and
/// a run with the display only if the display did not fail.
pub proof fn law_success_carries_the_reported_summary<S>(
    waited: Waited<S>,
    ran: Ran<S>,
    rendered: bool,
    summary: S,
)
    ensures
        waited_outcome(waited) == Ok::<S, RunFailure>(summary) <==> waited == Waited::Finished(
            summary,
        ),
        displayed_outcome(waited, rendered) == Ok::<S, RunFailure>(summary) <==> waited
            == Waited::Finished(summary) && rendered,
        headless_result(ran) == Ok::<S, RunFailure>(summary) <==> ran == Ran::Finished(summary),
{
}

/// RPC mode comes before the display, and the display before a headless run.
pub proof fn law_switches_choose_the_mode(rpc: bool, tui: bool)
    ensures
        mode_of(rpc, tui) == RunMode::Rpc <==> rpc,
        mode_of(rpc, tui) == RunMode::Tui <==> tui && !rpc,
        mode_of(rpc, tui) == RunMode::Headless <==> !tui && !rpc,
{
}

/// Each failure of a run comes from one cause. A wait that could not be joined hides what
/// the display did, and a failure of the display hides what else the wait brought.
pub proof fn law_each_failure_has_its_cause<S>(waited: Waited<S>, ran: Ran<S>, rendered: bool)
    ensures
        waited_outcome(waited) == Err::<S, RunFailure>(RunFailure::WaitJoin) <==> waited
            is JoinFailed,
        waited_outcome(waited) == Err::<S, RunFailure>(RunFailure::WaitPanicked) <==> waited
            is Panicked,
        waited_outcome(waited) == Err::<S, RunFailure>(RunFailure::Run) <==> waited is Failed,
        displayed_outcome(waited, rendered) == Err::<S, RunFailure>(RunFailure::WaitJoin)
            <==> waited is JoinFailed,
        displayed_outcome(waited, rendered) == Err::<S, RunFailure>(RunFailure::Render)
            <==> !rendered && !(waited is JoinFailed),
        displayed_outcome(waited, rendered) == Err::<S, RunFailure>(RunFailure::WaitPanicked)
            <==> rendered && waited is Panicked,
        displayed_outcome(waited, rendered) == Err::<S, RunFailure>(RunFailure::Run)
            <==> rendered && waited is Failed,
        headless_result(ran) == Err::<S, RunFailure>(RunFailure::RunPanicked) <==> ran
            is Panicked,
        headless_result(ran) == Err::<S, RunFailure>(RunFailure::Run) <==> ran is Failed,
{
}

/// The text of each failure.
pub proof fn law_failures_are_told_by_their_texts(failure: RunFailure)
    ensures
        failure == RunFailure::Spawn ==> failure_text(failure)
            == "spawning the autoloop subprocess"@,
        failure == RunFailure::WaitJoin ==> failure_text(failure) == "autoloop wait join failed"@,
        failure == RunFailure::WaitPanicked ==> failure_text(failure)
            == "autoloop wait task panicked"@,
        failure == RunFailure::RunPanicked ==> failure_text(failure)
            == "autoloop run task panicked"@,
        failure == RunFailure::Run ==> failure_text(failure) == "autoloop run failed"@,
        failure == RunFailure::Render ==> failure_text(failure) == "TUI render loop failed"@,
{
}

} // verus!
