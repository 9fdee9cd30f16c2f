use autoloop_engine::run::{
    headless_outcome, run_mode, spawned, wait_outcome, DisplayReturned, Ran, RunFailure, RunMode, Waited,
};

#[test]
fn rpc_comes_before_the_display() {
    assert_eq!(run_mode(true, true), RunMode::Rpc);
    assert_eq!(run_mode(true, false), RunMode::Rpc);
    assert_eq!(run_mode(false, true), RunMode::Tui);
    assert_eq!(run_mode(false, false), RunMode::Headless);
}

#[test]
fn only_a_headless_child_stays_in_our_group() {
    assert!(RunMode::Rpc.own_process_group());
    assert!(RunMode::Tui.own_process_group());
    assert!(!RunMode::Headless.own_process_group());
}

#[test]
fn a_wait_brings_its_summary_or_its_failure() {
    assert_eq!(wait_outcome::<u8>(Waited::JoinFailed), Err(RunFailure::WaitJoin));
    assert_eq!(wait_outcome::<u8>(Waited::Panicked), Err(RunFailure::WaitPanicked));
    assert_eq!(wait_outcome::<u8>(Waited::Failed), Err(RunFailure::Run));
    assert_eq!(wait_outcome(Waited::Finished(3)), Ok(3));
}

#[test]
fn a_headless_run_brings_its_summary_or_its_failure() {
    assert_eq!(headless_outcome::<u8>(Ran::Panicked), Err(RunFailure::RunPanicked));
    assert_eq!(headless_outcome::<u8>(Ran::Failed), Err(RunFailure::Run));
    assert_eq!(headless_outcome(Ran::Finished(3)), Ok(3));
}

#[test]
fn quitting_the_display_stops_the_subprocess() {
    assert!(DisplayReturned::new(false, true).must_kill());
    assert!(DisplayReturned::new(false, false).must_kill());
    assert!(!DisplayReturned::new(true, true).must_kill());
}

#[test]
fn failures_of_a_displayed_run_are_ranked() {
    let shown = || DisplayReturned::new(true, true);
    let broken = || DisplayReturned::new(true, false);
    assert_eq!(broken().outcome::<u8>(Waited::JoinFailed), Err(RunFailure::WaitJoin));
    assert_eq!(broken().outcome::<u8>(Waited::Panicked), Err(RunFailure::Render));
    assert_eq!(broken().outcome::<u8>(Waited::Failed), Err(RunFailure::Render));
    assert_eq!(broken().outcome(Waited::Finished(3)), Err(RunFailure::Render));
    assert_eq!(shown().outcome::<u8>(Waited::JoinFailed), Err(RunFailure::WaitJoin));
    assert_eq!(shown().outcome::<u8>(Waited::Panicked), Err(RunFailure::WaitPanicked));
    assert_eq!(shown().outcome::<u8>(Waited::Failed), Err(RunFailure::Run));
    assert_eq!(shown().outcome(Waited::Finished(3)), Ok(3));
}

#[test]
fn every_run_failure_has_its_message() {
    assert_eq!(RunFailure::Spawn.message(), "spawning the autoloop subprocess");
    assert_eq!(RunFailure::WaitJoin.message(), "autoloop wait join failed");
    assert_eq!(RunFailure::WaitPanicked.message(), "autoloop wait task panicked");
    assert_eq!(RunFailure::RunPanicked.message(), "autoloop run task panicked");
    assert_eq!(RunFailure::Run.message(), "autoloop run failed");
    assert_eq!(RunFailure::Render.message(), "TUI render loop failed");
}

#[test]
fn the_reader_is_left_alone_when_the_wait_is_lost() {
    let returned = DisplayReturned::new(true, true);
    assert!(!returned.joins_reader::<u8>(&Waited::JoinFailed));
    assert!(returned.joins_reader::<u8>(&Waited::Panicked));
    assert!(returned.joins_reader::<u8>(&Waited::Failed));
    assert!(returned.joins_reader(&Waited::Finished(3)));
}

#[test]
fn only_a_render_failure_is_the_displays() {
    assert!(RunFailure::Render.is_of_display());
    for other in [
        RunFailure::Spawn,
        RunFailure::WaitJoin,
        RunFailure::WaitPanicked,
        RunFailure::RunPanicked,
        RunFailure::Run,
    ] {
        assert!(!other.is_of_display());
    }
}

#[test]
fn a_run_without_its_subprocess_is_over() {
    assert_eq!(spawned(Some(7)), Ok(7));
    assert_eq!(spawned::<u8>(None), Err(RunFailure::Spawn));
}
