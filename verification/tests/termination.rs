use autoloop_engine::termination::{map_stop_reason, TerminationReason};

#[test]
fn maps_autoloop_stop_reasons_to_termination() {
    assert!(matches!(
        map_stop_reason("completed"),
        TerminationReason::CompletionPromise
    ));
    assert!(matches!(
        map_stop_reason("completion_event"),
        TerminationReason::CompletionPromise
    ));
    assert!(matches!(
        map_stop_reason("completion_promise"),
        TerminationReason::CompletionPromise
    ));
    assert!(matches!(
        map_stop_reason("max_iterations"),
        TerminationReason::MaxIterations
    ));
    assert!(matches!(
        map_stop_reason("cost_budget"),
        TerminationReason::MaxCost
    ));
    assert!(matches!(
        map_stop_reason("interrupted"),
        TerminationReason::Interrupted
    ));
    assert!(matches!(
        map_stop_reason("backend_failed"),
        TerminationReason::ValidationFailure
    ));
    // Unknown reasons fall back to a generic stop.
    assert!(matches!(
        map_stop_reason("something_new"),
        TerminationReason::Stopped
    ));
}

#[test]
fn the_other_known_stop_reasons_are_mapped() {
    assert_eq!(map_stop_reason("verdict_exit"), TerminationReason::CompletionPromise);
    assert_eq!(map_stop_reason("max_runtime"), TerminationReason::MaxRuntime);
    assert_eq!(map_stop_reason("stalled"), TerminationReason::LoopStale);
    assert_eq!(map_stop_reason("backend_timeout"), TerminationReason::ValidationFailure);
    assert_eq!(map_stop_reason("verdict_takeover"), TerminationReason::ValidationFailure);
}

#[test]
fn a_stop_reason_is_matched_to_the_letter() {
    assert_eq!(map_stop_reason(""), TerminationReason::Stopped);
    assert_eq!(map_stop_reason("Completed"), TerminationReason::Stopped);
    assert_eq!(map_stop_reason("completed "), TerminationReason::Stopped);
    assert_eq!(map_stop_reason("stalled_again"), TerminationReason::Stopped);
}
