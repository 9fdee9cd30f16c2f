//! How a run ended, and how the subprocess's own word for it is read.

use vstd::prelude::*;

use crate::text::same_text;

verus! {

/// Why an orchestration loop ended.
#[derive(Debug, Clone, Copy, PartialEq, Eq, Structural)]
pub enum TerminationReason {
    /// The loop reported its work complete.
    CompletionPromise,
    /// The iteration limit was reached.
    MaxIterations,
    /// The time limit was reached.
    MaxRuntime,
    /// The cost limit was reached.
    MaxCost,
    /// The loop made no progress any more.
    LoopStale,
    /// The run was interrupted from outside.
    Interrupted,
    /// The backend failed, or its verdict took the run over.
    ValidationFailure,
    /// Any other stop.
    Stopped,
}

/// The termination reason that an autoloop `stopReason` stands for. A word that is
/// not known is a generic stop.
pub open spec fn termination_of(reason: Seq<char>) -> TerminationReason {
    if reason == "completed"@ || reason == "completion_event"@ || reason == "completion_promise"@
        || reason == "verdict_exit"@ {
        TerminationReason::CompletionPromise
    } else if reason == "max_iterations"@ {
        TerminationReason::MaxIterations
    } else if reason == "max_runtime"@ {
        TerminationReason::MaxRuntime
    } else if reason == "cost_budget"@ {
        TerminationReason::MaxCost
    } else if reason == "stalled"@ {
        TerminationReason::LoopStale
    } else if reason == "interrupted"@ {
        TerminationReason::Interrupted
    } else if reason == "backend_failed"@ || reason == "backend_timeout"@ || reason
        == "verdict_takeover"@ {
        TerminationReason::ValidationFailure
    } else {
        TerminationReason::Stopped
    }
}

/// Map an autoloop `stopReason` onto a [`TerminationReason`].
pub fn map_stop_reason(reason: &str) -> (mapped: TerminationReason)
    ensures
        mapped == termination_of(reason@),
{
    if same_text(reason, "completed") || same_text(reason, "completion_event") || same_text(
        reason,
        "completion_promise",
    ) || same_text(reason, "verdict_exit") {
        TerminationReason::CompletionPromise
    } else if same_text(reason, "max_iterations") {
        TerminationReason::MaxIterations
    } else if same_text(reason, "max_runtime") {
        TerminationReason::MaxRuntime
    } else if same_text(reason, "cost_budget") {
        TerminationReason::MaxCost
    } else if same_text(reason, "stalled") {
        TerminationReason::LoopStale
    } else if same_text(reason, "interrupted") {
        TerminationReason::Interrupted
    } else if same_text(reason, "backend_failed") || same_text(reason, "backend_timeout")
        || same_text(reason, "verdict_takeover") {
        TerminationReason::ValidationFailure
    } else {
        TerminationReason::Stopped
    }
}

/// Each termination reason with the words that stand for it, and no others. What is none
/// of these words is a generic stop.
pub proof fn law_each_reason_has_its_words(reason: Seq<char>)
    ensures
        termination_of(reason) == TerminationReason::CompletionPromise <==> {
            ||| reason == "completed"@
            ||| reason == "completion_event"@
            ||| reason == "completion_promise"@
            ||| reason == "verdict_exit"@
        },
        termination_of(reason) == TerminationReason::MaxIterations <==> reason
            == "max_iterations"@,
        termination_of(reason) == TerminationReason::MaxRuntime <==> reason == "max_runtime"@,
        termination_of(reason) == TerminationReason::MaxCost <==> reason == "cost_budget"@,
        termination_of(reason) == TerminationReason::LoopStale <==> reason == "stalled"@,
        termination_of(reason) == TerminationReason::Interrupted <==> reason == "interrupted"@,
        termination_of(reason) == TerminationReason::ValidationFailure <==> {
            ||| reason == "backend_failed"@
            ||| reason == "backend_timeout"@
            ||| reason == "verdict_takeover"@
        },
{
    reveal_strlit("completed");
    reveal_strlit("completion_event");
    reveal_strlit("completion_promise");
    reveal_strlit("verdict_exit");
    reveal_strlit("max_iterations");
    reveal_strlit("max_runtime");
    reveal_strlit("cost_budget");
    reveal_strlit("stalled");
    reveal_strlit("interrupted");
    reveal_strlit("backend_failed");
    reveal_strlit("backend_timeout");
    reveal_strlit("verdict_takeover");
    assert("completed"@.len() == 9);
    assert("completion_event"@.len() == 16);
    assert("completion_promise"@.len() == 18);
    assert("verdict_exit"@.len() == 12);
    assert("max_iterations"@.len() == 14);
    assert("max_runtime"@.len() == 11);
    assert("cost_budget"@.len() == 11);
    assert("stalled"@.len() == 7);
    assert("interrupted"@.len() == 11);
    assert("backend_failed"@.len() == 14);
    assert("backend_timeout"@.len() == 15);
    assert("verdict_takeover"@.len() == 16);
    assert("completion_event"@[0] == 'c' && "verdict_takeover"@[0] == 'v');
    assert("max_runtime"@[0] == 'm' && "cost_budget"@[0] == 'c' && "interrupted"@[0] == 'i');
    assert("max_iterations"@[0] == 'm' && "backend_failed"@[0] == 'b');
}

} // verus!
