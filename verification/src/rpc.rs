//! The RPC stream: the events that the engine adds to it, the draining of what the
//! event mapper translated, and the commands that come in on the other side.

use vstd::prelude::*;

use crate::text::trim;

verus! {

/// How the RPC protocol says why a loop ended.
#[derive(Debug, Clone, Copy, PartialEq, Eq, Structural)]
pub enum RpcTerminationReason {
    Completed,
    MaxIterations,
    Interrupted,
    Error,
}

/// One event of the RPC stream. `E` is what the event mapper translates the
/// subprocess's own events into.
#[derive(Debug, PartialEq)]
pub enum RpcEvent<E> {
    /// Frames the run. Prompt, backend and limit are known to the engine alone.
    LoopStarted {
        prompt: String,
        max_iterations: Option<u32>,
        backend: String,
        workspace_root: Option<String>,
        started_at: u64,
    },
    /// An event that the mapper supplied.
    Mapped(E),
    /// Ends a stream that the subprocess left open.
    LoopTerminated {
        reason: RpcTerminationReason,
        total_iterations: u32,
        duration_ms: u64,
        /// Whole dollars.
        total_cost_usd: u32,
        terminated_at: u64,
    },
}

/// The translated events of one poll, in order. `polled` holds, for each event that
/// was read, what the mapper made of it; a failed poll has none.
pub open spec fn polled_events<E>(polled: Option<Vec<Vec<E>>>) -> Seq<RpcEvent<E>> {
    match polled {
        Some(batches) => batches@.map_values(|batch: Vec<E>| batch@).flatten().map_values(
            |event: E| RpcEvent::Mapped(event),
        ),
        None => Seq::empty(),
    }
}

/// Every translated event of one poll, in the order in which they are emitted. A poll
/// that failed emits nothing.
pub fn drain_rpc_events<E>(polled: Option<Vec<Vec<E>>>) -> (events: Vec<RpcEvent<E>>)
    ensures
        events@ == polled_events(polled),
{
    let mut events: Vec<RpcEvent<E>> = Vec::new();
    if let Some(batches) = polled {
        let ghost all = batches@.map_values(|batch: Vec<E>| batch@);
        let ghost wrap = |event: E| RpcEvent::Mapped(event);
        let ghost mut done: nat = 0;
        for batch in outer: batches
            invariant
                outer.seq() == batches@,
                done == outer.index(),
                all == batches@.map_values(|batch: Vec<E>| batch@),
                wrap == (|event: E| RpcEvent::Mapped(event)),
                events@ == all.take(done as int).flatten().map_values(wrap),
        {
            let ghost before = events@;
            let ghost mut count: nat = 0;
            let ghost items = batch@;
            assert(items == all[done as int]);
            assert(before == before + items.take(0).map_values(wrap));
            for event in inner: batch
                invariant
                    inner.seq() == items,
                    count == inner.index(),
                    wrap == (|event: E| RpcEvent::Mapped(event)),
                    events@ == before + items.take(count as int).map_values(wrap),
            {
                events.push(RpcEvent::Mapped(event));
                proof {
                    assert(items.take(count as int + 1) == items.take(count as int).push(event));
                    assert(events@ == before + items.take(count as int + 1).map_values(wrap));
                    count = count + 1;
                }
            }
            proof {
                assert(items.take(items.len() as int) == items);
                let prefix = all.take(done as int);
                assert(all.take(done as int + 1) == prefix.push(items));
                prefix.lemma_flatten_push(items);
                assert((prefix.flatten() + items).map_values(wrap) == prefix.flatten().map_values(
                    wrap,
                ) + items.map_values(wrap));
                done = done + 1;
            }
        }
        assert(all.take(all.len() as int) == all);
    }
    events
}

/// The event that frames a run. The workspace is not reported.
pub open spec fn loop_started<E>(
    prompt: String,
    max_iterations: Option<u32>,
    backend: String,
    started_at: u64,
) -> RpcEvent<E> {
    RpcEvent::LoopStarted { prompt, max_iterations, backend, workspace_root: None, started_at }
}

/// The time from `started_at` to `now`; none where the clock was set back.
pub open spec fn elapsed_millis(started_at: u64, now: u64) -> u64 {
    if now >= started_at {
        (now - started_at) as u64
    } else {
        0
    }
}

/// The event that closes a cancelled stream for which the subprocess wrote no terminal
/// of its own.
pub open spec fn interrupted<E>(started_at: u64, now: u64) -> RpcEvent<E> {
    RpcEvent::LoopTerminated {
        reason: RpcTerminationReason::Interrupted,
        total_iterations: 0,
        duration_ms: elapsed_millis(started_at, now),
        total_cost_usd: 0,
        terminated_at: now,
    }
}

/// A command of the RPC protocol, by its kind.
#[derive(Debug, Clone, Copy, PartialEq, Eq, Structural)]
pub enum RpcCommand {
    Prompt,
    Guidance,
    Steer,
    FollowUp,
    /// A request to end the run.
    Abort,
    GetState,
    GetIterations,
    SetHat,
}

/// What a line of standard input does.
#[derive(Debug, Clone, Copy, PartialEq, Eq, Structural)]
pub enum CommandEffect {
    /// It cancels the run.
    Cancel,
    /// It is a command that needs a channel into the loop. There is none, so it is
    /// consumed and ignored.
    Ignored,
    /// It is not a command, and is ignored.
    Malformed,
}

/// The command text on a line of standard input, without the white space around it;
/// nothing for a blank line.
pub fn command_text(line: &str) -> (command: Option<&str>)
    ensures
        command is None <==> crate::text::is_blank(line@),
        command matches Some(text) ==> text@ == crate::text::trimmed(line@),
{
    proof {
        crate::text::law_blank_is_trimmed_to_nothing(line@);
    }
    let text = trim(line);
    if text.is_empty() {
        None
    } else {
        Some(text)
    }
}

/// Only `abort` cancels.
pub open spec fn effect_of(parsed: Option<RpcCommand>) -> CommandEffect {
    match parsed {
        Some(RpcCommand::Abort) => CommandEffect::Cancel,
        Some(_) => CommandEffect::Ignored,
        None => CommandEffect::Malformed,
    }
}

/// What a line does, given the command that it was parsed to; nothing where it is none.
pub fn command_effect(parsed: Option<RpcCommand>) -> (effect: CommandEffect)
    ensures
        effect == effect_of(parsed),
{
    match parsed {
        Some(RpcCommand::Abort) => CommandEffect::Cancel,
        Some(_) => CommandEffect::Ignored,
        None => CommandEffect::Malformed,
    }
}

} // verus!
