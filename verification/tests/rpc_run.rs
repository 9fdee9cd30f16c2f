use std::time::{SystemTime, UNIX_EPOCH};

use autoloop_engine::rpc::{RpcEvent, RpcTerminationReason};
use autoloop_engine::rpc_run::{decide, Decision, RpcClosing, RpcNext, RpcTail, Wake};
use autoloop_engine::run::{RunFailure, Waited};

type Event = RpcEvent<&'static str>;

const TICK: Wake = Wake { completed: false, cancelled: false, ticked: true };
const IDLE: Wake = Wake { completed: false, cancelled: false, ticked: false };
const DONE: Wake = Wake { completed: true, cancelled: false, ticked: false };
const CANCEL: Wake = Wake { completed: false, cancelled: true, ticked: false };
const BOTH: Wake = Wake { completed: true, cancelled: true, ticked: true };

fn open() -> (Event, RpcTail<&'static str>) {
    RpcTail::open("do it".into(), Some(2), "codex".into(), 1_000)
}

fn opening() -> Event {
    RpcEvent::LoopStarted {
        prompt: "do it".into(),
        max_iterations: Some(2),
        backend: "codex".into(),
        workspace_root: None,
        started_at: 1_000,
    }
}

fn interrupted(now: u64, duration_ms: u64) -> Event {
    RpcEvent::LoopTerminated {
        reason: RpcTerminationReason::Interrupted,
        total_iterations: 0,
        duration_ms,
        total_cost_usd: 0,
        terminated_at: now,
    }
}

fn close(tail: RpcTail<&'static str>, wake: Wake, saw: bool) -> RpcClosing<&'static str> {
    match tail.wake(wake, saw) {
        RpcNext::Close(closing) => closing,
        _ => panic!("the run goes on"),
    }
}

#[test]
fn the_stream_opens_with_the_frame_of_the_run() {
    let (event, tail) = open();
    assert_eq!(event, opening());
    assert_eq!(tail.started_at(), 1_000);
}

#[test]
fn a_run_that_starts_now_carries_the_time() {
    let millis = || SystemTime::now().duration_since(UNIX_EPOCH).unwrap().as_millis() as u64;
    let before = millis();
    let (event, tail) = RpcTail::<u8>::open_now("p".into(), None, "b".into());
    let after = millis();
    assert!(before <= tail.started_at() && tail.started_at() <= after);
    match event {
        RpcEvent::LoopStarted { prompt, max_iterations, backend, workspace_root, started_at } => {
            assert_eq!(prompt, "p");
            assert_eq!(max_iterations, None);
            assert_eq!(backend, "b");
            assert_eq!(workspace_root, None);
            assert_eq!(started_at, tail.started_at());
        }
        other => panic!("not the opening: {other:?}"),
    }
}

#[test]
fn completion_comes_before_a_cancel_and_a_cancel_before_a_poll() {
    let closed = |cancelled, kill| Decision::Close { cancelled, kill };
    assert_eq!(decide(BOTH, false), closed(false, false));
    assert_eq!(decide(DONE, true), closed(false, false));
    let late = Wake { completed: false, cancelled: true, ticked: true };
    assert_eq!(decide(late, false), closed(true, true));
    assert_eq!(decide(CANCEL, true), closed(true, false));
    assert_eq!(decide(TICK, false), Decision::Drain);
    assert_eq!(decide(IDLE, false), Decision::Wait);
}

#[test]
fn a_completed_run_emits_the_whole_lifecycle() {
    let (event, tail) = open();
    let mut stream = vec![event];

    let tail = match tail.wake(IDLE, false) {
        RpcNext::Wait(tail) => tail,
        _ => panic!("nothing to do"),
    };
    let tail = match tail.wake(TICK, false) {
        RpcNext::Drain(poll) => {
            let polled = Some(vec![vec!["iteration_start 1"], vec!["ask", "answered"]]);
            let (events, tail) = poll.drain(polled);
            stream.extend(events);
            tail
        }
        _ => panic!("a poll is due"),
    };
    // A poll that fails is passed over.
    let tail = match tail.wake(TICK, false) {
        RpcNext::Drain(poll) => {
            let (events, tail) = poll.drain(None);
            assert!(events.is_empty());
            tail
        }
        _ => panic!("a poll is due"),
    };

    let closing = close(tail, DONE, false);
    assert!(!closing.must_kill());
    let (events, drained) = closing.drain(Some(vec![vec!["text"], vec!["loop_terminated"]]));
    stream.extend(events);
    let (events, closed) = drained.close(None, true, 2_000);
    stream.extend(events);

    assert_eq!(
        stream,
        vec![
            opening(),
            RpcEvent::Mapped("iteration_start 1"),
            RpcEvent::Mapped("ask"),
            RpcEvent::Mapped("answered"),
            RpcEvent::Mapped("text"),
            RpcEvent::Mapped("loop_terminated"),
        ]
    );
    assert_eq!(closed.outcome(Waited::Finished(7)), Ok(7));
}

#[test]
fn a_completed_run_without_a_terminal_is_not_given_one() {
    let (_, tail) = open();
    let (_, drained) = close(tail, DONE, false).drain(None);
    let (events, _) = drained.close(None, false, 2_000);
    assert!(events.is_empty());
}

#[test]
fn a_terminal_that_was_held_back_is_flushed() {
    let (_, tail) = open();
    let (_, drained) = close(tail, DONE, false).drain(Some(vec![]));
    let (events, _) = drained.close(Some("loop_terminated"), true, 2_000);
    assert_eq!(events, vec![RpcEvent::Mapped("loop_terminated")]);
}

#[test]
fn a_cancelled_run_is_killed_and_its_stream_closed() {
    let (_, tail) = open();
    let closing = close(tail, CANCEL, false);
    assert!(closing.must_kill());
    let (events, drained) = closing.drain(Some(vec![vec!["text"]]));
    assert_eq!(events, vec![RpcEvent::Mapped("text")]);
    let (events, closed) = drained.close(None, false, 1_750);
    assert_eq!(events, vec![interrupted(1_750, 750)]);
    let outcome: Result<u8, RunFailure> = closed.outcome(Waited::Failed);
    assert_eq!(outcome, Err(RunFailure::Run));
}

#[test]
fn a_cancelled_run_with_a_terminal_is_left_as_it_is() {
    let (_, tail) = open();
    let closing = close(tail, CANCEL, true);
    assert!(!closing.must_kill());
    let (_, drained) = closing.drain(None);
    let (events, _) = drained.close(None, true, 1_750);
    assert!(events.is_empty());
}

#[test]
fn a_terminal_that_arrives_after_the_kill_is_the_only_one() {
    let (_, tail) = open();
    let closing = close(tail, CANCEL, false);
    assert!(closing.must_kill());
    let (events, drained) = closing.drain(Some(vec![vec!["loop_terminated"]]));
    assert_eq!(events, vec![RpcEvent::Mapped("loop_terminated")]);
    let (events, _) = drained.close(None, true, 1_750);
    assert!(events.is_empty());
}

#[test]
fn a_clock_that_was_set_back_gives_no_duration() {
    let (_, tail) = open();
    let (_, drained) = close(tail, CANCEL, false).drain(None);
    let (events, _) = drained.close(None, false, 400);
    assert_eq!(events, vec![interrupted(400, 0)]);
}

#[test]
fn a_stream_closed_now_carries_the_time() {
    let (_, tail) = RpcTail::<u8>::open_now("p".into(), None, "b".into());
    let started_at = tail.started_at();
    let closing = match tail.wake(CANCEL, false) {
        RpcNext::Close(closing) => closing,
        _ => panic!("the run goes on"),
    };
    let (_, drained) = closing.drain(None);
    let (events, _) = drained.close_now(None, false);
    match &events[..] {
        [RpcEvent::LoopTerminated { reason, duration_ms, terminated_at, .. }] => {
            assert_eq!(*reason, RpcTerminationReason::Interrupted);
            assert!(*terminated_at >= 1_600_000_000_000);
            assert_eq!(*duration_ms, terminated_at.saturating_sub(started_at));
        }
        other => panic!("not one terminal: {other:?}"),
    }
}

/// The stream of a completed run whose event file is read in the given polls.
fn completed(polls: Vec<Option<Vec<Vec<&'static str>>>>, last: Vec<Vec<&'static str>>) -> Vec<Event> {
    let (event, mut tail) = open();
    let mut stream = vec![event];
    for polled in polls {
        tail = match tail.wake(TICK, false) {
            RpcNext::Drain(poll) => {
                let (events, next) = poll.drain(polled);
                stream.extend(events);
                next
            }
            _ => panic!("a poll is due"),
        };
    }
    let (events, drained) = close(tail, DONE, false).drain(Some(last));
    stream.extend(events);
    let (events, _) = drained.close(Some("held"), true, 2_000);
    stream.extend(events);
    stream
}

#[test]
fn how_lines_fall_on_polls_does_not_show() {
    let lines = || vec![vec!["a"], vec![], vec!["b", "c"], vec!["a"]];
    let at_once = completed(vec![], lines());
    assert_eq!(at_once.len(), 6);
    assert_eq!(completed(vec![Some(lines())], vec![]), at_once);
    for cut in 0..=4 {
        let mut first = lines();
        let rest = first.split_off(cut);
        assert_eq!(completed(vec![Some(first), None, Some(vec![])], rest), at_once);
    }
    let each = lines().into_iter().map(|line| Some(vec![line])).collect();
    assert_eq!(completed(each, vec![]), at_once);
}
