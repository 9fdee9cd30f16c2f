//! What holds of every RPC stream, whatever the mapper supplied and whenever the run
//! was completed or cancelled.

#![allow(unused_imports)]

use vstd::prelude::*;

use crate::rpc::CommandEffect;
use crate::rpc::RpcCommand;
use crate::rpc::RpcEvent;
use crate::rpc::RpcTerminationReason;
use crate::rpc_run::Decision;
use crate::rpc_run::Round;
use crate::rpc_run::Wake;

verus! {

/// A complete stream: what had been emitted when the event file was read to its end,
/// and the closing events.
pub open spec fn whole_stream<E>(
    stream: Seq<RpcEvent<E>>,
    cancelled: bool,
    started_at: u64,
    held: Option<E>,
    saw_terminal: bool,
    now: u64,
) -> Seq<RpcEvent<E>> {
    stream + crate::rpc_run::closing_events(cancelled, started_at, held, saw_terminal, now)
}

/// Whether an event reports the end of the run. `is_terminal` tells it of the mapper's
/// events.
pub open spec fn ends_run<E>(event: RpcEvent<E>, is_terminal: spec_fn(E) -> bool) -> bool {
    match event {
        RpcEvent::LoopStarted { .. } => false,
        RpcEvent::Mapped(mapped) => is_terminal(mapped),
        RpcEvent::LoopTerminated { .. } => true,
    }
}

/// Whether the end of the run is reported somewhere in `stream`.
pub open spec fn has_terminal<E>(
    stream: Seq<RpcEvent<E>>,
    is_terminal: spec_fn(E) -> bool,
) -> bool {
    exists|i: int| 0 <= i < stream.len() && ends_run(#[trigger] stream[i], is_terminal)
}

/// Whether nothing follows a report of the end of the run in `stream`.
pub open spec fn terminal_is_last<E>(
    stream: Seq<RpcEvent<E>>,
    is_terminal: spec_fn(E) -> bool,
) -> bool {
    forall|i: int|
        0 <= i < stream.len() && ends_run(#[trigger] stream[i], is_terminal) ==> i == stream.len()
            - 1
}

/// Every poll of an open stream leaves it open.
pub proof fn law_poll_keeps_the_stream_open<E>(
    stream: Seq<RpcEvent<E>>,
    polled: Option<Vec<Vec<E>>>,
)
    requires
        crate::rpc_run::is_open_stream(stream),
    ensures
        crate::rpc_run::is_open_stream(stream + crate::rpc::polled_events(polled)),
{
}

/// A complete stream opens with the event that frames the run, and that event occurs
/// nowhere else.
pub proof fn law_stream_opens_once<E>(
    stream: Seq<RpcEvent<E>>,
    cancelled: bool,
    started_at: u64,
    held: Option<E>,
    saw_terminal: bool,
    now: u64,
)
    requires
        crate::rpc_run::is_open_stream(stream),
    ensures
        ({
            let whole = whole_stream(stream, cancelled, started_at, held, saw_terminal, now);
            &&& whole.len() > 0
            &&& whole[0] == stream[0]
            &&& forall|i: int|
                0 <= i < whole.len() ==> ((#[trigger] whole[i]) is LoopStarted <==> i == 0)
        }),
{
}

/// The engine adds a terminal of its own exactly on a cancel for which the mapper saw
/// none. It is then the last event, and the only one that the engine added.
pub proof fn law_terminal_is_added_on_an_open_cancel_only<E>(
    stream: Seq<RpcEvent<E>>,
    cancelled: bool,
    started_at: u64,
    held: Option<E>,
    saw_terminal: bool,
    now: u64,
)
    requires
        crate::rpc_run::is_open_stream(stream),
    ensures
        ({
            let whole = whole_stream(stream, cancelled, started_at, held, saw_terminal, now);
            forall|i: int|
                0 <= i < whole.len() ==> ((#[trigger] whole[i]) is LoopTerminated <==> cancelled
                    && !saw_terminal && i == whole.len() - 1)
        }),
{
}

/// A cancelled run always reports its end, given that the mapper says it saw a terminal
/// only where it supplied one.
pub proof fn law_cancelled_stream_is_terminated<E>(
    stream: Seq<RpcEvent<E>>,
    started_at: u64,
    held: Option<E>,
    saw_terminal: bool,
    now: u64,
    is_terminal: spec_fn(E) -> bool,
)
    requires
        saw_terminal ==> has_terminal(stream + crate::rpc_run::held_event(held), is_terminal),
    ensures
        has_terminal(
            whole_stream(stream, true, started_at, held, saw_terminal, now),
            is_terminal,
        ),
{
    let supplied = stream + crate::rpc_run::held_event(held);
    let whole = whole_stream(stream, true, started_at, held, saw_terminal, now);
    if saw_terminal {
        let i = choose|i: int| 0 <= i < supplied.len() && ends_run(
            #[trigger] supplied[i],
            is_terminal,
        );
        assert(whole[i] == supplied[i]);
    } else {
        assert(ends_run(whole[whole.len() - 1], is_terminal));
    }
}

/// A cancelled run reports its end once, as its last event, given that the mapper
/// supplies a terminal as its last event if at all, and says that it saw one exactly
/// where it did.
pub proof fn law_cancelled_stream_ends_once<E>(
    stream: Seq<RpcEvent<E>>,
    started_at: u64,
    held: Option<E>,
    saw_terminal: bool,
    now: u64,
    is_terminal: spec_fn(E) -> bool,
)
    requires
        saw_terminal <==> has_terminal(stream + crate::rpc_run::held_event(held), is_terminal),
        terminal_is_last(stream + crate::rpc_run::held_event(held), is_terminal),
    ensures
        has_terminal(
            whole_stream(stream, true, started_at, held, saw_terminal, now),
            is_terminal,
        ),
        terminal_is_last(
            whole_stream(stream, true, started_at, held, saw_terminal, now),
            is_terminal,
        ),
{
    law_cancelled_stream_is_terminated(stream, started_at, held, saw_terminal, now, is_terminal);
    let supplied = stream + crate::rpc_run::held_event(held);
    let whole = whole_stream(stream, true, started_at, held, saw_terminal, now);
    assert forall|i: int| 0 <= i < whole.len() && ends_run(#[trigger] whole[i], is_terminal) implies i
        == whole.len() - 1 by {
        if i < supplied.len() {
            assert(whole[i] == supplied[i]);
        }
    }
}

/// A run that completes is not killed, and only what the mapper supplied is emitted
/// after the opening.
pub proof fn law_completed_run_is_left_alone<E>(
    stream: Seq<RpcEvent<E>>,
    started_at: u64,
    held: Option<E>,
    wake: Wake,
    saw_terminal: bool,
    saw_terminal_at_last: bool,
    now: u64,
)
    requires
        wake.completed,
    ensures
        crate::rpc_run::decision(wake, saw_terminal) == (Decision::Close {
            cancelled: false,
            kill: false,
        }),
        whole_stream(stream, false, started_at, held, saw_terminal_at_last, now) == stream
            + crate::rpc_run::held_event(held),
{
}

/// The subprocess tree is stopped exactly on a cancel that finds it running and without a
/// terminal seen.
pub proof fn law_only_an_open_cancel_kills(wake: Wake, saw_terminal: bool)
    ensures
        (crate::rpc_run::decision(wake, saw_terminal) matches Decision::Close { kill, .. } && kill)
            <==> !wake.completed && wake.cancelled && !saw_terminal,
{
}

/// The first wake-up that closes decides how the run is closed, and nothing that comes
/// after it is seen.
pub proof fn law_first_closing_wake_decides<E>(rounds: Seq<Round<E>>, k: int)
    requires
        0 <= k < rounds.len(),
        rounds[k].decision() is Close,
        forall|j: int| 0 <= j < k ==> !((#[trigger] rounds[j]).decision() is Close),
    ensures
        crate::rpc_run::closes(rounds) == Some(rounds[k].decision()),
        crate::rpc_run::tailed(rounds) == crate::rpc_run::tailed(rounds.take(k)),
    decreases k,
{
    if k > 0 {
        let rest = rounds.drop_first();
        assert(!(rounds[0].decision() is Close));
        assert forall|j: int| 0 <= j < k - 1 implies !((#[trigger] rest[j]).decision() is Close) by {
            assert(rest[j] == rounds[j + 1]);
        }
        law_first_closing_wake_decides(rest, k - 1);
        assert(rounds.take(k).drop_first() == rest.take(k - 1));
        assert(rounds.take(k).first() == rounds.first());
    }
}

/// What the mapper made of each line that a poll read, in order. A poll that failed read
/// none.
pub open spec fn lines_of<E>(polled: Option<Vec<Vec<E>>>) -> Seq<Seq<E>> {
    match polled {
        Some(batches) => batches@.map_values(|batch: Vec<E>| batch@),
        None => Seq::empty(),
    }
}

/// The events for a number of lines of the event file: all of them, each once, in order.
pub open spec fn events_for<E>(lines: Seq<Seq<E>>) -> Seq<RpcEvent<E>> {
    lines.flatten().map_values(|event: E| RpcEvent::Mapped(event))
}

/// The lines that a reader had read when it came to close. In each round in which it
/// polls it gets the poll at that place in `polls`.
pub open spec fn lines_read<E>(
    rounds: Seq<Round<E>>,
    polls: Seq<Option<Vec<Vec<E>>>>,
) -> Seq<Seq<E>>
    decreases rounds.len(),
{
    if rounds.len() == 0 {
        Seq::empty()
    } else {
        match rounds.first().decision() {
            Decision::Wait => lines_read(rounds.drop_first(), polls.drop_first()),
            Decision::Drain => lines_of(polls.first()) + lines_read(
                rounds.drop_first(),
                polls.drop_first(),
            ),
            Decision::Close { .. } => Seq::empty(),
        }
    }
}

/// Whether `polls` are the polls that a reader got that went through `rounds`.
pub open spec fn polled_in<E>(rounds: Seq<Round<E>>, polls: Seq<Option<Vec<Vec<E>>>>) -> bool {
    &&& polls.len() == rounds.len()
    &&& forall|i: int|
        0 <= i < rounds.len() && (#[trigger] rounds[i]).decision() is Drain ==> rounds[i].events
            == crate::rpc::polled_events(polls[i])
}

proof fn lemma_events_for_concat<E>(before: Seq<Seq<E>>, after: Seq<Seq<E>>)
    ensures
        events_for(before + after) == events_for(before) + events_for(after),
{
    vstd::seq_lib::lemma_flatten_concat(before, after);
    assert(events_for(before + after) =~= events_for(before) + events_for(after));
}

/// While it tails, a reader emits every event of the lines that it reads, once and in
/// order.
pub proof fn law_tailing_emits_what_was_read<E>(
    rounds: Seq<Round<E>>,
    polls: Seq<Option<Vec<Vec<E>>>>,
)
    requires
        polled_in(rounds, polls),
    ensures
        crate::rpc_run::tailed(rounds) == events_for(lines_read(rounds, polls)),
    decreases rounds.len(),
{
    if rounds.len() == 0 {
        assert(events_for(Seq::<Seq<E>>::empty()) =~= Seq::<RpcEvent<E>>::empty());
    } else {
        let later = rounds.drop_first();
        let polls_later = polls.drop_first();
        match rounds.first().decision() {
            Decision::Close { .. } => {
                assert(events_for(Seq::<Seq<E>>::empty()) =~= Seq::<RpcEvent<E>>::empty());
            },
            _ => {
                assert forall|i: int|
                    0 <= i < later.len() && (
                    #[trigger] later[i]).decision() is Drain implies later[i].events
                    == crate::rpc::polled_events(polls_later[i]) by {
                    assert(later[i] == rounds[i + 1]);
                }
                law_tailing_emits_what_was_read(later, polls_later);
                lemma_events_for_concat(
                    lines_of(polls.first()),
                    lines_read(later, polls_later),
                );
                assert(events_for(lines_of(polls.first())) =~= crate::rpc::polled_events(
                    polls.first(),
                ));
                assert(rounds[0] == rounds.first());
            },
        }
    }
}

/// A complete stream is the opening event, every event of the lines that were read while
/// tailing and by the last poll, once and in order, and the closing events.
pub proof fn law_stream_tells_every_line<E>(
    stream: Seq<RpcEvent<E>>,
    rounds: Seq<Round<E>>,
    polls: Seq<Option<Vec<Vec<E>>>>,
    last: Option<Vec<Vec<E>>>,
    cancelled: bool,
    started_at: u64,
    held: Option<E>,
    saw_terminal: bool,
    now: u64,
)
    requires
        crate::rpc_run::follows(stream, rounds),
        polled_in(rounds, polls),
    ensures
        whole_stream(
            stream + crate::rpc::polled_events(last),
            cancelled,
            started_at,
            held,
            saw_terminal,
            now,
        ) == seq![stream[0]] + events_for(lines_read(rounds, polls) + lines_of(last))
            + crate::rpc_run::closing_events(cancelled, started_at, held, saw_terminal, now),
{
    law_tailing_emits_what_was_read(rounds, polls);
    lemma_events_for_concat(lines_read(rounds, polls), lines_of(last));
    assert(events_for(lines_of(last)) =~= crate::rpc::polled_events(last));
}

/// How the lines of the event file fall on the polls does not show in the stream of a run
/// that is not cancelled: no event is lost, repeated or moved. Two runs that open alike
/// and read the same lines emit the same.
pub proof fn law_polls_do_not_show_in_the_stream<E>(
    stream: Seq<RpcEvent<E>>,
    rounds: Seq<Round<E>>,
    polls: Seq<Option<Vec<Vec<E>>>>,
    last: Option<Vec<Vec<E>>>,
    other_stream: Seq<RpcEvent<E>>,
    other_rounds: Seq<Round<E>>,
    other_polls: Seq<Option<Vec<Vec<E>>>>,
    other_last: Option<Vec<Vec<E>>>,
    started_at: u64,
    held: Option<E>,
    saw_terminal: bool,
    now: u64,
    other_now: u64,
)
    requires
        crate::rpc_run::follows(stream, rounds),
        polled_in(rounds, polls),
        crate::rpc_run::follows(other_stream, other_rounds),
        polled_in(other_rounds, other_polls),
        stream[0] == other_stream[0],
        lines_read(rounds, polls) + lines_of(last) == lines_read(other_rounds, other_polls)
            + lines_of(other_last),
    ensures
        whole_stream(
            stream + crate::rpc::polled_events(last),
            false,
            started_at,
            held,
            saw_terminal,
            now,
        ) == whole_stream(
            other_stream + crate::rpc::polled_events(other_last),
            false,
            started_at,
            held,
            saw_terminal,
            other_now,
        ),
{
    law_stream_tells_every_line(
        stream,
        rounds,
        polls,
        last,
        false,
        started_at,
        held,
        saw_terminal,
        now,
    );
    law_stream_tells_every_line(
        other_stream,
        other_rounds,
        other_polls,
        other_last,
        false,
        started_at,
        held,
        saw_terminal,
        other_now,
    );
}

/// What closes a cancelled stream for which no terminal was seen says when the run ended
/// and how long it took: the start and the duration add up to the end. Where the clock was
/// set back behind the start, the duration is zero.
pub proof fn law_cancelled_stream_tells_its_time<E>(
    started_at: u64,
    held: Option<E>,
    now: u64,
)
    ensures
        ({
            let closing = crate::rpc_run::closing_events(true, started_at, held, false, now);
            &&& closing.len() > 0
            &&& closing.last() matches RpcEvent::LoopTerminated {
                reason,
                total_iterations,
                duration_ms,
                total_cost_usd,
                terminated_at,
            }
            &&& reason == RpcTerminationReason::Interrupted
            &&& total_iterations == 0
            &&& total_cost_usd == 0
            &&& terminated_at == now
            &&& started_at <= now ==> started_at + duration_ms == now
            &&& now < started_at ==> duration_ms == 0
        }),
{
}

/// A run that is cancelled a number of milliseconds later is reported as that much longer.
pub proof fn law_later_cancel_is_a_longer_run(started_at: u64, now: u64, later: u64)
    requires
        started_at <= now <= later,
    ensures
        crate::rpc::elapsed_millis(started_at, started_at) == 0,
        crate::rpc::elapsed_millis(started_at, later) - crate::rpc::elapsed_millis(started_at, now)
            == later - now,
{
}

/// What is emitted at the end: the terminal that the mapper held, if it held one, then the
/// engine's own exactly on a cancel without a terminal, and nothing else.
pub proof fn law_stream_closes_with_what_is_missing<E>(
    cancelled: bool,
    started_at: u64,
    held: Option<E>,
    saw_terminal: bool,
    now: u64,
)
    ensures
        ({
            let closing = crate::rpc_run::closing_events(
                cancelled,
                started_at,
                held,
                saw_terminal,
                now,
            );
            let holds: int = if held is Some { 1 } else { 0 };
            let adds: int = if cancelled && !saw_terminal { 1 } else { 0 };
            &&& closing.len() == holds + adds
            &&& held matches Some(event) ==> closing[0] == RpcEvent::Mapped(event)
            &&& adds == 1 ==> closing[holds] is LoopTerminated
        }),
{
}

/// The terminal that the mapper held is one event, and none is none.
pub proof fn law_held_terminal_is_one_event<E>(held: Option<E>)
    ensures
        match held {
            Some(event) => crate::rpc_run::held_event(held) == seq![RpcEvent::Mapped(event)],
            None => crate::rpc_run::held_event(held).len() == 0,
        },
{
}

/// The event that frames a run says what it was given, and no workspace.
pub proof fn law_opening_says_what_it_was_given<E>(
    prompt: String,
    max_iterations: Option<u32>,
    backend: String,
    started_at: u64,
)
    ensures
        crate::rpc::loop_started::<E>(prompt, max_iterations, backend, started_at) matches
            RpcEvent::LoopStarted {
            prompt: told,
            max_iterations: limit,
            backend: label,
            workspace_root: None,
            started_at: time,
        } && told == prompt && limit == max_iterations && label == backend && time == started_at,
{
}

/// A poll emits what the mapper made of its lines, one line after the other: a failed poll
/// and one without lines emit nothing, one line emits its events in order, and the lines
/// of two polls read at once emit what the two polls emit.
pub proof fn law_poll_emits_its_lines_in_order<E>(
    first: Vec<Vec<E>>,
    second: Vec<Vec<E>>,
    both: Vec<Vec<E>>,
    line: Vec<Vec<E>>,
)
    requires
        both@ == first@ + second@,
        line@.len() == 1,
    ensures
        crate::rpc::polled_events::<E>(None).len() == 0,
        first@.len() == 0 ==> crate::rpc::polled_events(Some(first)).len() == 0,
        crate::rpc::polled_events(Some(line)).len() == line@[0]@.len(),
        forall|i: int|
            0 <= i < line@[0]@.len() ==> #[trigger] crate::rpc::polled_events(Some(line))[i]
                == RpcEvent::Mapped(line@[0]@[i]),
        crate::rpc::polled_events(Some(both)) == crate::rpc::polled_events(Some(first))
            + crate::rpc::polled_events(Some(second)),
{
    let view = |batch: Vec<E>| batch@;
    let a = first@.map_values(view);
    let b = second@.map_values(view);
    assert(both@.map_values(view) == a + b);
    lemma_events_for_concat(a, b);
    let one = line@.map_values(view);
    assert(one == seq![line@[0]@]);
    one.lemma_flatten_one_element();
}

/// Only `abort` cancels, only what is no command is malformed, and every other command is
/// ignored.
pub proof fn law_only_abort_cancels(parsed: Option<RpcCommand>)
    ensures
        crate::rpc::effect_of(parsed) == CommandEffect::Cancel <==> parsed == Some(
            RpcCommand::Abort,
        ),
        crate::rpc::effect_of(parsed) == CommandEffect::Malformed <==> parsed is None,
        crate::rpc::effect_of(parsed) == CommandEffect::Ignored <==> parsed is Some && parsed
            != Some(RpcCommand::Abort),
{
}

/// A reader closes exactly when the run is completed or cancelled; completion comes first,
/// and a cancel kills unless a terminal was seen. Else it polls exactly when the interval
/// has passed.
pub proof fn law_wake_decides(wake: Wake, saw_terminal: bool)
    ensures
        wake.completed ==> crate::rpc_run::decision(wake, saw_terminal) == (Decision::Close {
            cancelled: false,
            kill: false,
        }),
        wake.cancelled && !wake.completed ==> crate::rpc_run::decision(wake, saw_terminal) == (
        Decision::Close { cancelled: true, kill: !saw_terminal }),
        !wake.completed && !wake.cancelled ==> (crate::rpc_run::decision(wake, saw_terminal)
            == Decision::Drain <==> wake.ticked),
        !wake.completed && !wake.cancelled ==> (crate::rpc_run::decision(wake, saw_terminal)
            == Decision::Wait <==> !wake.ticked),
{
}

/// In one round a reader emits its poll exactly when the interval has passed and the run
/// is neither completed nor cancelled; and it closes exactly when the run is one of these.
pub proof fn law_one_round<E>(round: Round<E>)
    ensures
        crate::rpc_run::tailed(Seq::<Round<E>>::empty()).len() == 0,
        crate::rpc_run::closes(Seq::<Round<E>>::empty()) is None,
        round.decision() == crate::rpc_run::decision(round.wake, round.saw_terminal),
        round.wake.ticked && !round.wake.completed && !round.wake.cancelled
            ==> crate::rpc_run::tailed(seq![round]) == round.events,
        !round.wake.ticked || round.wake.completed || round.wake.cancelled
            ==> crate::rpc_run::tailed(seq![round]).len() == 0,
        crate::rpc_run::closes(seq![round]) is Some <==> round.wake.completed
            || round.wake.cancelled,
        crate::rpc_run::closes(seq![round]) matches Some(how) ==> how == (Decision::Close {
            cancelled: !round.wake.completed,
            kill: !round.wake.completed && !round.saw_terminal,
        }),
{
    reveal_with_fuel(crate::rpc_run::tailed, 2);
    reveal_with_fuel(crate::rpc_run::closes, 2);
    assert(seq![round].drop_first() == Seq::<Round<E>>::empty());
    assert(seq![round].first() == round);
}

/// An open stream is one whose first event, and no other, frames the run, and in which
/// none is the engine's own terminal.
pub proof fn law_open_stream_is_framed<E>(stream: Seq<RpcEvent<E>>)
    ensures
        crate::rpc_run::is_open_stream(stream) <==> {
            &&& stream.len() > 0
            &&& forall|i: int|
                0 <= i < stream.len() ==> ((#[trigger] stream[i]) is LoopStarted <==> i == 0) && !(
                stream[i] is LoopTerminated)
        },
{
}

/// The event file is polled ten times in a second.
pub proof fn law_ten_polls_a_second()
    ensures
        10 * crate::rpc_run::POLL_INTERVAL_MILLIS == 1_000,
{
}

} // verus!
