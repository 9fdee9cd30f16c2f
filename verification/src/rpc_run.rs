//! The RPC counterpart of an interactive run: the stream is opened, the translated
//! events are drained while the subprocess lives, and the stream is closed.

use vstd::prelude::*;

use crate::clock::now_unix_millis;
use crate::rpc::drain_rpc_events;
use crate::rpc::RpcEvent;
use crate::rpc::RpcTerminationReason;
use crate::run::wait_outcome;
use crate::run::RunFailure;
use crate::run::Waited;

verus! {

/// How long the reader of the event file waits between two polls, in milliseconds.
pub const POLL_INTERVAL_MILLIS: u64 = 100;

/// What the reader of the event file finds when it is woken.
#[derive(Debug, Clone, Copy, PartialEq, Eq, Structural)]
pub struct Wake {
    /// The subprocess has ended.
    pub completed: bool,
    /// The run has been cancelled, by a signal or by a command.
    pub cancelled: bool,
    /// The poll interval has passed.
    pub ticked: bool,
}

/// What the reader does after it was woken.
#[derive(Debug, Clone, Copy, PartialEq, Eq, Structural)]
pub enum Decision {
    /// Nothing; it waits on.
    Wait,
    /// It polls the event file once.
    Drain,
    /// It stops tailing. `kill` tells whether the subprocess tree must be stopped.
    Close { cancelled: bool, kill: bool },
}

/// Completion comes first: it closes the stream and leaves the subprocess alone. A cancel
/// closes the stream too, and stops the subprocess tree unless a terminal event has been
/// seen. The poll interval comes last.
pub open spec fn decision(wake: Wake, saw_terminal: bool) -> Decision {
    if wake.completed {
        Decision::Close { cancelled: false, kill: false }
    } else if wake.cancelled {
        Decision::Close { cancelled: true, kill: !saw_terminal }
    } else if wake.ticked {
        Decision::Drain
    } else {
        Decision::Wait
    }
}

/// Decide on a wake-up. `saw_terminal` is the mapper's word on whether the subprocess
/// has reported the end of the run.
pub fn decide(wake: Wake, saw_terminal: bool) -> (decided: Decision)
    ensures
        decided == decision(wake, saw_terminal),
{
    if wake.completed {
        Decision::Close { cancelled: false, kill: false }
    } else if wake.cancelled {
        Decision::Close { cancelled: true, kill: !saw_terminal }
    } else if wake.ticked {
        Decision::Drain
    } else {
        Decision::Wait
    }
}

/// A stream that has been opened and not closed: the opening event, then only events
/// of the mapper.
pub open spec fn is_open_stream<E>(stream: Seq<RpcEvent<E>>) -> bool {
    &&& stream.len() > 0
    &&& stream[0] is LoopStarted
    &&& forall|i: int| 1 <= i < stream.len() ==> (#[trigger] stream[i]) is Mapped
}

/// What is emitted last: the terminal that the mapper still held, then, on a cancel
/// without a terminal, the one that closes the stream.
pub open spec fn closing_events<E>(
    cancelled: bool,
    started_at: u64,
    held: Option<E>,
    saw_terminal: bool,
    now: u64,
) -> Seq<RpcEvent<E>> {
    held_event(held) + if cancelled && !saw_terminal {
        seq![crate::rpc::interrupted(started_at, now)]
    } else {
        Seq::empty()
    }
}

/// The terminal that the mapper still held, as an event.
pub open spec fn held_event<E>(held: Option<E>) -> Seq<RpcEvent<E>> {
    match held {
        Some(event) => seq![RpcEvent::Mapped(event)],
        None => Seq::empty(),
    }
}

/// One wake-up of the reader: what woke it, what the mapper had seen, and the events
/// that a poll made then would emit.
pub struct Round<E> {
    pub wake: Wake,
    pub saw_terminal: bool,
    pub events: Seq<RpcEvent<E>>,
}

impl<E> Round<E> {
    /// What the reader does in this round.
    pub open spec fn decision(self) -> Decision {
        decision(self.wake, self.saw_terminal)
    }
}

/// What a reader that goes through `rounds` emits until it closes.
pub open spec fn tailed<E>(rounds: Seq<Round<E>>) -> Seq<RpcEvent<E>>
    decreases rounds.len(),
{
    if rounds.len() == 0 {
        Seq::empty()
    } else {
        match rounds.first().decision() {
            Decision::Wait => tailed(rounds.drop_first()),
            Decision::Drain => rounds.first().events + tailed(rounds.drop_first()),
            Decision::Close { .. } => Seq::empty(),
        }
    }
}

/// How a reader that goes through `rounds` comes to close, if it does.
pub open spec fn closes<E>(rounds: Seq<Round<E>>) -> Option<Decision>
    decreases rounds.len(),
{
    if rounds.len() == 0 {
        None
    } else if rounds.first().decision() is Close {
        Some(rounds.first().decision())
    } else {
        closes(rounds.drop_first())
    }
}

/// An RPC run whose event file is being tailed.
pub struct RpcTail<E> {
    started_at: u64,
    stream: Ghost<Seq<RpcEvent<E>>>,
    history: Ghost<Seq<Round<E>>>,
}

/// An RPC run that has to poll the event file before it goes on tailing.
pub struct RpcPoll<E> {
    tail: RpcTail<E>,
    wake: Wake,
    saw_terminal: bool,
}

/// An RPC run that has stopped tailing and has one poll left to make.
pub struct RpcClosing<E> {
    started_at: u64,
    cancelled: bool,
    kill: bool,
    stream: Ghost<Seq<RpcEvent<E>>>,
    history: Ghost<Seq<Round<E>>>,
}

/// An RPC run whose event file has been read to its end.
pub struct RpcDrained<E> {
    started_at: u64,
    cancelled: bool,
    stream: Ghost<Seq<RpcEvent<E>>>,
}

/// An RPC run whose stream is complete.
pub struct RpcClosed<E> {
    stream: Ghost<Seq<RpcEvent<E>>>,
}

/// Where a wake-up leads.
pub enum RpcNext<E> {
    Wait(RpcTail<E>),
    Drain(RpcPoll<E>),
    Close(RpcClosing<E>),
}

/// Whether `stream` is an opening event followed by what a reader emitted that went
/// through `history`.
pub open spec fn follows<E>(stream: Seq<RpcEvent<E>>, history: Seq<Round<E>>) -> bool {
    &&& is_open_stream(stream)
    &&& stream == seq![stream[0]] + tailed(history)
}

impl<E> RpcTail<E> {
    #[verifier::type_invariant]
    spec fn valid(self) -> bool {
        &&& follows(self.stream@, self.history@)
        &&& closes(self.history@) is None
    }

    /// The events emitted so far.
    pub closed spec fn stream(self) -> Seq<RpcEvent<E>> {
        self.stream@
    }

    /// The wake-ups so far.
    pub closed spec fn history(self) -> Seq<Round<E>> {
        self.history@
    }

    /// When the run started, in Unix milliseconds.
    pub closed spec fn start(self) -> u64 {
        self.started_at
    }

    /// Open the stream of a run that started at `started_at`: the event to emit, and
    /// the run.
    pub fn open(
        prompt: String,
        max_iterations: Option<u32>,
        backend: String,
        started_at: u64,
    ) -> (opened: (RpcEvent<E>, RpcTail<E>))
        ensures
            opened.0 == crate::rpc::loop_started::<E>(prompt, max_iterations, backend, started_at),
            opened.1.stream() == seq![opened.0],
            opened.1.history() == Seq::<Round<E>>::empty(),
            opened.1.start() == started_at,
    {
        let event: RpcEvent<E> = RpcEvent::LoopStarted {
            prompt,
            max_iterations,
            backend,
            workspace_root: None,
            started_at,
        };
        let ghost stream = seq![event];
        let ghost history = Seq::<Round<E>>::empty();
        assert(stream == seq![stream[0]] + tailed(history));
        let tail = RpcTail { started_at, stream: Ghost(stream), history: Ghost(history) };
        (event, tail)
    }

    /// Open the stream of a run that starts now.
    pub fn open_now(prompt: String, max_iterations: Option<u32>, backend: String) -> (opened: (
        RpcEvent<E>,
        RpcTail<E>,
    ))
        ensures
            opened.0 == crate::rpc::loop_started::<E>(
                prompt,
                max_iterations,
                backend,
                opened.1.start(),
            ),
            opened.1.stream() == seq![opened.0],
            opened.1.history() == Seq::<Round<E>>::empty(),
            exists|reading: std::time::SystemTime|
                opened.1.start() == #[trigger] crate::clock::unix_millis_at(reading),
    {
        let started_at: u64 = now_unix_millis();
        RpcTail::open(prompt, max_iterations, backend, started_at)
    }

    /// When the run started, in Unix milliseconds.
    pub fn started_at(&self) -> (millis: u64)
        ensures
            millis == self.start(),
    {
        self.started_at
    }

    /// Go on after a wake-up.
    pub fn wake(self, wake: Wake, saw_terminal: bool) -> (next: RpcNext<E>)
        ensures
            match decision(wake, saw_terminal) {
                Decision::Wait => {
                    &&& next matches RpcNext::Wait(tail)
                    &&& tail.stream() == self.stream()
                    &&& tail.start() == self.start()
                    &&& tail.history() == self.history().push(
                        Round { wake, saw_terminal, events: Seq::empty() },
                    )
                },
                Decision::Drain => {
                    &&& next matches RpcNext::Drain(poll)
                    &&& poll.tail() == self
                    &&& poll.wake() == wake
                    &&& poll.saw_terminal() == saw_terminal
                },
                Decision::Close { cancelled, kill } => {
                    &&& next matches RpcNext::Close(closing)
                    &&& closing.stream() == self.stream()
                    &&& closing.start() == self.start()
                    &&& closing.cancelled() == cancelled
                    &&& closing.kill() == kill
                    &&& closing.history() == self.history().push(
                        Round { wake, saw_terminal, events: Seq::empty() },
                    )
                },
            },
    {
        proof {
            use_type_invariant(&self);
        }
        let ghost round = Round { wake, saw_terminal, events: Seq::<RpcEvent<E>>::empty() };
        let ghost history = self.history@.push(round);
        proof {
            lemma_one_more_round(self.history@, round);
        }
        match decide(wake, saw_terminal) {
            Decision::Wait => RpcNext::Wait(
                RpcTail {
                    started_at: self.started_at,
                    stream: Ghost(self.stream@),
                    history: Ghost(history),
                },
            ),
            Decision::Drain => RpcNext::Drain(RpcPoll { tail: self, wake, saw_terminal }),
            Decision::Close { cancelled, kill } => RpcNext::Close(
                RpcClosing {
                    started_at: self.started_at,
                    cancelled,
                    kill,
                    stream: Ghost(self.stream@),
                    history: Ghost(history),
                },
            ),
        }
    }
}

impl<E> RpcPoll<E> {
    #[verifier::type_invariant]
    spec fn valid(self) -> bool {
        decision(self.wake, self.saw_terminal) is Drain
    }

    /// The run that goes on after the poll.
    pub closed spec fn tail(self) -> RpcTail<E> {
        self.tail
    }

    /// What the reader found when it was woken.
    pub closed spec fn wake(self) -> Wake {
        self.wake
    }

    /// The mapper's word, before the poll, on whether the end of the run was reported.
    pub closed spec fn saw_terminal(self) -> bool {
        self.saw_terminal
    }

    /// Take in one poll of the event file: the events to emit, and the run.
    pub fn drain(self, polled: Option<Vec<Vec<E>>>) -> (drained: (Vec<RpcEvent<E>>, RpcTail<E>))
        ensures
            drained.0@ == crate::rpc::polled_events(polled),
            drained.1.stream() == self.tail().stream() + drained.0@,
            drained.1.start() == self.tail().start(),
            drained.1.history() == self.tail().history().push(
                Round {
                    wake: self.wake(),
                    saw_terminal: self.saw_terminal(),
                    events: drained.0@,
                },
            ),
    {
        proof {
            use_type_invariant(&self);
            use_type_invariant(&self.tail);
            lemma_polled_events_are_mapped(polled);
        }
        let events = drain_rpc_events(polled);
        let ghost round = Round {
            wake: self.wake,
            saw_terminal: self.saw_terminal,
            events: events@,
        };
        let ghost stream = self.tail.stream@ + events@;
        proof {
            lemma_one_more_round(self.tail.history@, round);
            assert(stream == seq![stream[0]] + tailed(self.tail.history@.push(round)));
        }
        let tail = RpcTail {
            started_at: self.tail.started_at,
            stream: Ghost(stream),
            history: Ghost(self.tail.history@.push(round)),
        };
        (events, tail)
    }
}

impl<E> RpcClosing<E> {
    #[verifier::type_invariant]
    spec fn valid(self) -> bool {
        &&& follows(self.stream@, self.history@)
        &&& closes(self.history@) == Some(
            Decision::Close { cancelled: self.cancelled, kill: self.kill },
        )
    }

    /// The events emitted so far.
    pub closed spec fn stream(self) -> Seq<RpcEvent<E>> {
        self.stream@
    }

    /// The wake-ups, the closing one last.
    pub closed spec fn history(self) -> Seq<Round<E>> {
        self.history@
    }

    /// When the run started, in Unix milliseconds.
    pub closed spec fn start(self) -> u64 {
        self.started_at
    }

    /// Whether a cancel ended the tailing.
    pub closed spec fn cancelled(self) -> bool {
        self.cancelled
    }

    /// Whether the subprocess tree must be stopped.
    pub closed spec fn kill(self) -> bool {
        self.kill
    }

    /// Whether the subprocess tree must be stopped before the last poll.
    pub fn must_kill(&self) -> (kill: bool)
        ensures
            kill == self.kill(),
    {
        self.kill
    }

    /// Take in the last poll of the event file: the events to emit, and the run. What
    /// was emitted before is the opening event and what the wake-ups drained.
    pub fn drain(self, polled: Option<Vec<Vec<E>>>) -> (drained: (Vec<RpcEvent<E>>, RpcDrained<E>))
        ensures
            drained.0@ == crate::rpc::polled_events(polled),
            drained.1.stream() == self.stream() + drained.0@,
            drained.1.start() == self.start(),
            drained.1.cancelled() == self.cancelled(),
            follows(self.stream(), self.history()),
            closes(self.history()) == Some(
                Decision::Close { cancelled: self.cancelled(), kill: self.kill() },
            ),
    {
        proof {
            use_type_invariant(&self);
            lemma_polled_events_are_mapped(polled);
        }
        let events = drain_rpc_events(polled);
        let drained = RpcDrained {
            started_at: self.started_at,
            cancelled: self.cancelled,
            stream: Ghost(self.stream@ + events@),
        };
        (events, drained)
    }
}

impl<E> RpcDrained<E> {
    #[verifier::type_invariant]
    spec fn valid(self) -> bool {
        is_open_stream(self.stream@)
    }

    /// The events emitted so far.
    pub closed spec fn stream(self) -> Seq<RpcEvent<E>> {
        self.stream@
    }

    /// When the run started, in Unix milliseconds.
    pub closed spec fn start(self) -> u64 {
        self.started_at
    }

    /// Whether a cancel ended the tailing.
    pub closed spec fn cancelled(self) -> bool {
        self.cancelled
    }

    /// Close the stream at the time `now`: the events to emit, and the run. `held` is
    /// the terminal that the mapper still held, and `saw_terminal` its word, after it
    /// gave that up, on whether the end of the run has been reported.
    pub fn close(self, held: Option<E>, saw_terminal: bool, now: u64) -> (closed: (
        Vec<RpcEvent<E>>,
        RpcClosed<E>,
    ))
        ensures
            closed.0@ == closing_events(self.cancelled(), self.start(), held, saw_terminal, now),
            self.cancelled() && !saw_terminal ==> {
                &&& closed.0@.len() > 0
                &&& closed.0@.last() matches RpcEvent::LoopTerminated {
                    duration_ms,
                    terminated_at,
                    ..
                }
                &&& terminated_at == now
                &&& self.start() <= now ==> self.start() + duration_ms == now
                &&& now < self.start() ==> duration_ms == 0
            },
            closed.1.stream() == self.stream() + closed.0@,
            is_open_stream(self.stream()),
    {
        proof {
            use_type_invariant(&self);
        }
        let mut events: Vec<RpcEvent<E>> = Vec::new();
        if let Some(event) = held {
            events.push(RpcEvent::Mapped(event));
        }
        if self.cancelled && !saw_terminal {
            let duration_ms: u64 = if now >= self.started_at {
                now - self.started_at
            } else {
                0
            };
            events.push(
                RpcEvent::LoopTerminated {
                    reason: RpcTerminationReason::Interrupted,
                    total_iterations: 0,
                    duration_ms,
                    total_cost_usd: 0,
                    terminated_at: now,
                },
            );
        }
        let closed = RpcClosed { stream: Ghost(self.stream@ + events@) };
        (events, closed)
    }

    /// Close the stream now.
    pub fn close_now(self, held: Option<E>, saw_terminal: bool) -> (closed: (
        Vec<RpcEvent<E>>,
        RpcClosed<E>,
    ))
        ensures
            exists|reading: std::time::SystemTime|
                closed.0@ == closing_events(
                    self.cancelled(),
                    self.start(),
                    held,
                    saw_terminal,
                    #[trigger] crate::clock::unix_millis_at(reading),
                ),
            closed.1.stream() == self.stream() + closed.0@,
            is_open_stream(self.stream()),
    {
        let now: u64 = now_unix_millis();
        self.close(held, saw_terminal, now)
    }
}

impl<E> RpcClosed<E> {
    /// All events of the run.
    pub closed spec fn stream(self) -> Seq<RpcEvent<E>> {
        self.stream@
    }

    /// The outcome of the run, once the task that waits for the subprocess has ended.
    pub fn outcome<S>(self, waited: Waited<S>) -> (outcome: Result<S, RunFailure>)
        ensures
            outcome == crate::run::waited_outcome(waited),
    {
        wait_outcome(waited)
    }
}

/// A reader that has not closed has emitted what it drained, round after round, in
/// order.
pub proof fn law_tailing_keeps_order<E>(before: Seq<Round<E>>, after: Seq<Round<E>>)
    requires
        closes(before) is None,
    ensures
        tailed(before + after) == tailed(before) + tailed(after),
        closes(before + after) == closes(after),
    decreases before.len(),
{
    if before.len() == 0 {
        assert(before + after == after);
    } else {
        law_tailing_keeps_order(before.drop_first(), after);
        assert((before + after).drop_first() == before.drop_first() + after);
        assert((before + after).first() == before.first());
    }
}

proof fn lemma_one_more_round<E>(history: Seq<Round<E>>, round: Round<E>)
    requires
        closes(history) is None,
    ensures
        tailed(history.push(round)) == tailed(history) + if round.decision() is Drain {
            round.events
        } else {
            Seq::empty()
        },
        closes(history.push(round)) == if round.decision() is Close {
            Some(round.decision())
        } else {
            None
        },
{
    law_tailing_keeps_order(history, seq![round]);
    assert(history + seq![round] == history.push(round));
    let rest = seq![round].drop_first();
    assert(tailed(rest) == Seq::<RpcEvent<E>>::empty());
    assert(closes(rest) is None);
    assert(tailed(seq![round]) == if round.decision() is Drain {
        round.events
    } else {
        Seq::empty()
    });
}

proof fn lemma_polled_events_are_mapped<E>(polled: Option<Vec<Vec<E>>>)
    ensures
        forall|i: int|
            0 <= i < crate::rpc::polled_events(polled).len() ==> (
            #[trigger] crate::rpc::polled_events(polled)[i]) is Mapped,
{
}

} // verus!
