use autoloop_engine::config::{
    CliConfig, CoreConfig, EventLoopConfig, FeaturesConfig, RalphConfig, ScratchpadConfig,
};
use autoloop_engine::engine::{
    begin, resolve_loop_id, summary_line, AutoloopRunSummary, Completion, EndStep, EngineError,
    EngineRequest, EventReset, Launch, LaunchMode, LoopContext, PresetStep, PromptStep, RunResult,
    RunStats,
};
use autoloop_engine::paths::{FilePath, PathStyle};
use autoloop_engine::run::{RunFailure, RunMode};
use autoloop_engine::termination::TerminationReason;

fn text(path: &str) -> FilePath {
    FilePath::Text(path.into())
}

fn request() -> EngineRequest {
    EngineRequest {
        path_style: PathStyle::native(),
        config: RalphConfig {
            core: CoreConfig {
                workspace_root: text("/work"),
                autoloop_preset: Some("preset".into()),
                scratchpad: ScratchpadConfig { path: "/work/pad.md".into() },
            },
            event_loop: EventLoopConfig {
                prompt: None,
                prompt_file: "PROMPT.md".into(),
                max_iterations: 2,
            },
            cli: CliConfig { backend: "codex".into(), default_mode: "interactive".into() },
            features: FeaturesConfig { auto_merge: true },
        },
        context: None,
        auto_merge_override: None,
        loop_id: None,
        use_colors: true,
        tui: false,
        rpc: false,
    }
}

fn prompt_step(request: EngineRequest) -> PromptStep {
    match begin(request) {
        PresetStep::Check(check) => check.checked(true).unwrap(),
        PresetStep::Generate(generation) => generation.generated(true).unwrap(),
    }
}

fn reset(request: EngineRequest) -> EventReset {
    match prompt_step(request) {
        PromptStep::Ready(reset) => reset,
        PromptStep::Read(read) => read.read(Some("add a footer to index.html".into())).unwrap(),
    }
}

fn launch(request: EngineRequest) -> Launch {
    reset(request).reset()
}

fn summary(stop_reason: &str) -> AutoloopRunSummary<f64> {
    AutoloopRunSummary { iterations: 2, stop_reason: stop_reason.into(), cost_usd: 0.05 }
}

fn complete(request: EngineRequest, stop_reason: &str) -> Completion<f64, u32> {
    match launch(request).ended(Ok(summary(stop_reason))).unwrap() {
        EndStep::Read(read) => read.read(None).complete(9),
        EndStep::Report(report) => report.complete(9),
    }
}

#[test]
fn a_configured_preset_is_checked() {
    match begin(request()) {
        PresetStep::Check(check) => {
            assert_eq!(check.preset(), &text("/work/preset"));
            assert_eq!(check.marker(), &text("/work/preset/autoloops.toml"));
        }
        PresetStep::Generate(_) => panic!("a preset is configured"),
    }
}

#[test]
fn a_preset_without_its_marker_is_not_found() {
    let error = match begin(request()) {
        PresetStep::Check(check) => check.checked(false).unwrap_err(),
        PresetStep::Generate(_) => panic!("a preset is configured"),
    };
    assert_eq!(error, EngineError::PresetNotFound { preset: text("/work/preset") });
    assert_eq!(
        error.message(),
        "autoloop preset not found (no autoloops.toml): /work/preset"
    );
}

#[test]
fn without_a_preset_one_is_generated() {
    let mut request = request();
    request.config.core.autoloop_preset = None;
    match begin(request) {
        PresetStep::Generate(generation) => {
            assert_eq!(generation.preset(), &text("/work/.ralph/autoloop-preset"));
            let error = generation.generated(false).unwrap_err();
            assert_eq!(error, EngineError::PresetGeneration);
            assert_eq!(
                error.message(),
                "generating an autoloop preset from the hats topology"
            );
        }
        PresetStep::Check(_) => panic!("no preset is configured"),
    }
}

#[test]
fn an_inline_prompt_comes_before_the_file() {
    let mut inline = request();
    inline.config.event_loop.prompt = Some("inline".into());
    match prompt_step(inline) {
        PromptStep::Ready(reset) => assert_eq!(reset.reset().prompt(), "inline"),
        PromptStep::Read(_) => panic!("the prompt is inline"),
    }
    let mut empty = request();
    empty.config.event_loop.prompt = Some(String::new());
    match prompt_step(empty) {
        PromptStep::Ready(reset) => assert_eq!(reset.reset().prompt(), ""),
        PromptStep::Read(_) => panic!("the prompt is inline"),
    }
}

#[test]
fn the_prompt_file_is_read_from_the_workspace() {
    match prompt_step(request()) {
        PromptStep::Read(read) => {
            assert_eq!(read.path(), &text("/work/PROMPT.md"));
            let launch = read.read(Some("from the file".into())).unwrap().reset();
            assert_eq!(launch.prompt(), "from the file");
            assert_eq!(launch.preset(), &text("/work/preset"));
        }
        PromptStep::Ready(_) => panic!("the prompt is in a file"),
    }
}

#[test]
fn a_prompt_file_that_cannot_be_read_ends_the_run() {
    let error = match prompt_step(request()) {
        PromptStep::Read(read) => read.read(None).unwrap_err(),
        PromptStep::Ready(_) => panic!("the prompt is in a file"),
    };
    assert_eq!(error, EngineError::PromptRead { path: text("/work/PROMPT.md") });
    assert_eq!(error.message(), "reading prompt file /work/PROMPT.md");
}

#[test]
fn a_blank_prompt_file_means_an_empty_prompt() {
    for file in ["", " \t\n"] {
        let mut request = request();
        request.config.event_loop.prompt_file = file.into();
        match prompt_step(request) {
            PromptStep::Ready(reset) => assert_eq!(reset.reset().prompt(), ""),
            PromptStep::Read(_) => panic!("there is no file to read"),
        }
    }
}

#[test]
fn the_event_file_is_kept_below_the_workspace() {
    let reset = reset(request());
    assert_eq!(reset.dir(), &text("/work/.ralph"));
    assert_eq!(reset.events_path(), &text("/work/.ralph/autoloop-events.ndjson"));
    assert!(reset.warns_of_backend());
    let mut auto = request();
    auto.config.cli.backend = "auto".into();
    assert!(!self::reset(auto).warns_of_backend());
}

#[test]
fn the_switches_choose_the_mode() {
    let switched = |rpc, tui| {
        let mut request = request();
        request.rpc = rpc;
        request.tui = tui;
        launch(request)
    };
    let rpc = LaunchMode::Rpc { backend: "codex".into(), max_iterations: Some(2) };
    assert_eq!(switched(true, false).mode(), &rpc);
    assert_eq!(switched(true, true).mode(), &rpc);
    assert_eq!(switched(false, true).mode(), &LaunchMode::Tui);
    assert_eq!(switched(false, false).mode(), &LaunchMode::Headless);
}

#[test]
fn a_launch_carries_preset_and_prompt() {
    let launch = launch(request());
    assert_eq!(launch.preset(), &text("/work/preset"));
    assert_eq!(launch.prompt(), "add a footer to index.html");
    assert_eq!(launch.events_path(), &text("/work/.ralph/autoloop-events.ndjson"));
}

#[test]
fn a_failed_run_is_reported_by_its_mode() {
    let failed = |rpc, tui, failure| {
        let mut request = request();
        request.rpc = rpc;
        request.tui = tui;
        launch(request).ended::<f64>(Err(failure)).unwrap_err()
    };
    let error = failed(true, false, RunFailure::Spawn);
    assert_eq!(error, EngineError::Run { mode: RunMode::Rpc, failure: RunFailure::Spawn });
    assert_eq!(error.message(), "autoloop RPC run failed");
    assert_eq!(failed(false, true, RunFailure::Render).message(), "autoloop TUI run failed");
    assert_eq!(failed(false, false, RunFailure::Run).message(), "autoloop run failed");
    assert_eq!(
        failed(false, false, RunFailure::RunPanicked).message(),
        "autoloop run task panicked"
    );
}

#[test]
fn an_error_is_told_from_the_outside_in() {
    let contexts = |mode, failure| EngineError::Run { mode, failure }.contexts();
    assert_eq!(
        contexts(RunMode::Rpc, RunFailure::Spawn),
        ["autoloop RPC run failed", "spawning the autoloop subprocess"]
    );
    assert_eq!(
        contexts(RunMode::Tui, RunFailure::Render),
        ["autoloop TUI run failed", "TUI render loop failed"]
    );
    assert_eq!(contexts(RunMode::Headless, RunFailure::Run), ["autoloop run failed"]);
    assert_eq!(
        EngineError::PresetNotFound { preset: text("/p") }.contexts(),
        ["autoloop preset not found (no autoloops.toml): /p"]
    );
    assert_eq!(
        EngineError::PresetGeneration.contexts(),
        ["generating an autoloop preset from the hats topology"]
    );
    assert_eq!(
        EngineError::PromptRead { path: text("/f") }.contexts(),
        ["reading prompt file /f"]
    );
}

fn result() -> RunResult {
    RunResult { run_id: "r1".into(), iterations: 12, stop_reason: "completed".into() }
}

#[test]
fn people_are_told_the_result() {
    let line = "autoloop engine: run_id=r1 iterations=12 stop_reason=completed";
    assert_eq!(summary_line(&result()), line);
    match launch(request()).ended(Ok(summary("completed"))).unwrap() {
        EndStep::Read(read) => {
            assert_eq!(read.events_path(), &text("/work/.ralph/autoloop-events.ndjson"));
            assert_eq!(read.read(Some(result())).line(), Some(line));
        }
        EndStep::Report(_) => panic!("the event file is read outside RPC mode"),
    }
    match launch(request()).ended(Ok(summary("completed"))).unwrap() {
        EndStep::Read(read) => assert_eq!(read.read(None).line(), None),
        EndStep::Report(_) => panic!("the event file is read outside RPC mode"),
    }
}

#[test]
fn rpc_mode_keeps_standard_output_clean() {
    let mut request = request();
    request.rpc = true;
    match launch(request).ended(Ok(summary("completed"))).unwrap() {
        EndStep::Report(report) => {
            assert_eq!(report.line(), None);
            assert!(!report.complete(9).banner);
        }
        EndStep::Read(_) => panic!("nothing is reported in RPC mode"),
    }
}

#[test]
fn completion_gets_the_request_and_the_figures() {
    let done = complete(request(), "max_iterations");
    assert_eq!(done.reason, TerminationReason::MaxIterations);
    assert_eq!(done.stats, RunStats { iterations: 2, elapsed: 9, cost_usd: 0.05 });
    assert_eq!(done.context, None);
    assert_eq!(done.scratchpad, "/work/pad.md");
    assert_eq!(done.prompt, "add a footer to index.html");
    assert!(done.auto_merge);
    assert_eq!(done.loop_id, "primary");
    assert!(done.use_colors);
    assert!(done.banner);
}

#[test]
fn an_override_decides_on_the_merge() {
    for (configured, given, expected) in [
        (true, None, true),
        (false, None, false),
        (true, Some(false), false),
        (false, Some(true), true),
    ] {
        let mut request = request();
        request.config.features.auto_merge = configured;
        request.auto_merge_override = given;
        assert_eq!(complete(request, "completed").auto_merge, expected);
    }
}

#[test]
fn a_given_loop_id_comes_before_the_context() {
    let context = |id: Option<&str>| Some(LoopContext { loop_id: id.map(str::to_string) });
    assert_eq!(resolve_loop_id(Some("given".into()), &context(Some("ctx"))), "given");
    assert_eq!(resolve_loop_id(Some(String::new()), &None), "");
    assert_eq!(resolve_loop_id(None, &context(Some("ctx"))), "ctx");
    assert_eq!(resolve_loop_id(None, &context(None)), "primary");
    assert_eq!(resolve_loop_id(None, &None), "primary");

    let mut request = request();
    request.context = context(Some("ctx"));
    let done = complete(request, "completed");
    assert_eq!(done.loop_id, "ctx");
    assert_eq!(done.context, context(Some("ctx")));
}

#[test]
fn a_workspace_of_the_platform_is_carried_through() {
    let native = |path: &str| FilePath::Native(path.into());
    let mut request = request();
    request.config.core.workspace_root = native("/work");
    match begin(request) {
        PresetStep::Check(check) => {
            assert_eq!(check.preset(), &native("/work/preset"));
            assert_eq!(check.marker(), &native("/work/preset/autoloops.toml"));
            assert_eq!(
                check.checked(false).unwrap_err().message(),
                "autoloop preset not found (no autoloops.toml): /work/preset"
            );
        }
        PresetStep::Generate(_) => panic!("a preset is configured"),
    }
    let mut inline = self::request();
    inline.config.core.workspace_root = native("/work");
    inline.config.event_loop.prompt = Some("inline".into());
    assert_eq!(launch(inline).events_path(), &native("/work/.ralph/autoloop-events.ndjson"));
}
