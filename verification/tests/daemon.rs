use autoloop_engine::config::{
    CliConfig, CoreConfig, EventLoopConfig, FeaturesConfig, RalphConfig, ScratchpadConfig,
};
use autoloop_engine::daemon::{self, BackendStep, ConfigLoad, DaemonFailure, PROMPT_SUMMARY_LIMIT};
use autoloop_engine::engine::{LoopContext, PresetStep, PromptStep};
use autoloop_engine::paths::{FilePath, PathStyle};

fn begin(prompt: String, workspace_root: String, config_path: Option<String>) -> ConfigLoad {
    daemon::begin(
        PathStyle::native(),
        prompt,
        FilePath::Text(workspace_root),
        config_path.map(FilePath::Text),
    )
}

fn loaded(backend: &str) -> RalphConfig {
    RalphConfig {
        core: CoreConfig {
            workspace_root: FilePath::Text("/elsewhere".into()),
            autoloop_preset: Some("preset".into()),
            scratchpad: ScratchpadConfig { path: "pad.md".into() },
        },
        event_loop: EventLoopConfig {
            prompt: Some("old prompt".into()),
            prompt_file: "PROMPT.md".into(),
            max_iterations: 5,
        },
        cli: CliConfig { backend: backend.into(), default_mode: "interactive".into() },
        features: FeaturesConfig { auto_merge: true },
    }
}

#[test]
fn the_configuration_file_defaults_to_the_workspace() {
    let step = begin("p".into(), "/work".into(), None);
    assert_eq!(step.path(), &FilePath::Text("/work/ralph.yml".into()));
    let step = begin("p".into(), "/work".into(), Some("other.yml".into()));
    assert_eq!(step.path(), &FilePath::Text("other.yml".into()));
}

#[test]
fn a_loaded_configuration_is_made_autonomous() {
    let check = begin("fix it".into(), "/work".into(), None).loaded(loaded("codex"));
    let config = check.config();
    assert_eq!(config.core.workspace_root, FilePath::Text("/work".into()));
    assert_eq!(config.event_loop.prompt.as_deref(), Some("fix it"));
    assert_eq!(config.event_loop.prompt_file, "");
    assert_eq!(config.cli.default_mode, "autonomous");
    // The rest is kept.
    assert_eq!(config.core.autoloop_preset.as_deref(), Some("preset"));
    assert_eq!(config.core.scratchpad.path, "pad.md");
    assert_eq!(config.event_loop.max_iterations, 5);
    assert_eq!(config.cli.backend, "codex");
    assert!(config.features.auto_merge);
}

#[test]
fn a_backend_is_detected_only_for_auto() {
    for backend in ["codex", "", "Auto"] {
        let check = begin("fix it".into(), "/work".into(), None).loaded(loaded(backend));
        match check.validated(loaded(backend)) {
            BackendStep::Ready(prepared) => assert_eq!(prepared.config().cli.backend, backend),
            BackendStep::Detect(_) => panic!("{backend} was chosen"),
        }
    }
    let check = begin("fix it".into(), "/work".into(), None).loaded(loaded("auto"));
    match check.validated(loaded("auto")) {
        BackendStep::Detect(detection) => {
            let prepared = detection.detected("kiro".into());
            assert_eq!(prepared.config().cli.backend, "kiro");
            assert_eq!(prepared.config().cli.default_mode, "interactive");
            assert_eq!(prepared.workspace_root(), &FilePath::Text("/work".into()));
        }
        BackendStep::Ready(_) => panic!("no backend was chosen"),
    }
}

#[test]
fn the_lock_shows_the_prompt() {
    assert_eq!(PROMPT_SUMMARY_LIMIT, 100);
    let summary = |config: RalphConfig| {
        match begin("p".into(), "/work".into(), None).loaded(loaded("codex")).validated(config) {
            BackendStep::Ready(prepared) => prepared.prompt_summary().to_string(),
            BackendStep::Detect(_) => panic!("a backend was chosen"),
        }
    };
    assert_eq!(summary(loaded("codex")), "old prompt");
    let mut bare = loaded("codex");
    bare.event_loop.prompt = None;
    assert_eq!(summary(bare), "[daemon]");
}

#[test]
fn a_daemon_run_is_headless_and_uses_the_given_prompt() {
    let check = begin("fix it".into(), "/work".into(), None).loaded(loaded("codex"));
    let mut normal = loaded("codex");
    normal.core.workspace_root = check.config().core.workspace_root.duplicate();
    normal.event_loop.prompt = check.config().event_loop.prompt.clone();
    normal.event_loop.prompt_file = check.config().event_loop.prompt_file.clone();
    let prepared = match check.checked(Some(normal)).unwrap() {
        BackendStep::Ready(prepared) => prepared,
        BackendStep::Detect(_) => panic!("a backend was chosen"),
    };
    let request = prepared.acquired(Some(LoopContext { loop_id: None })).unwrap();
    assert!(!request.tui);
    assert!(!request.rpc);
    assert!(!request.use_colors);
    assert_eq!(request.auto_merge_override, None);
    assert_eq!(request.loop_id, None);
    assert_eq!(request.context, Some(LoopContext { loop_id: None }));
    let step = match autoloop_engine::engine::begin(request) {
        PresetStep::Check(check) => check.checked(true).unwrap(),
        PresetStep::Generate(_) => panic!("a preset is configured"),
    };
    match step {
        PromptStep::Ready(reset) => assert_eq!(reset.reset().prompt(), "fix it"),
        PromptStep::Read(_) => panic!("the prompt is inline"),
    }
}

#[test]
fn an_invalid_configuration_is_refused() {
    let check = begin("fix it".into(), "/work".into(), None).loaded(loaded("codex"));
    assert_eq!(check.checked(None).unwrap_err(), DaemonFailure::Validation);
}

#[test]
fn a_lock_that_is_held_is_refused() {
    let check = begin("fix it".into(), "/work".into(), None).loaded(loaded("codex"));
    match check.validated(loaded("codex")) {
        BackendStep::Ready(prepared) => {
            assert_eq!(prepared.acquired(None).unwrap_err(), DaemonFailure::Lock);
        }
        BackendStep::Detect(_) => panic!("a backend was chosen"),
    }
    let check = begin("fix it".into(), "/work".into(), None).loaded(loaded("codex"));
    match check.validated(loaded("codex")) {
        BackendStep::Ready(prepared) => {
            let request = prepared.locked(LoopContext { loop_id: Some("l1".into()) });
            assert_eq!(request.context, Some(LoopContext { loop_id: Some("l1".into()) }));
        }
        BackendStep::Detect(_) => panic!("a backend was chosen"),
    }
}

#[test]
fn every_daemon_failure_has_its_message() {
    assert_eq!(DaemonFailure::Validation.message(), "Configuration validation failed");
    assert_eq!(
        DaemonFailure::Lock.message(),
        "Failed to acquire loop lock — another loop may be running"
    );
}

#[test]
fn a_workspace_of_the_platform_is_kept() {
    let native = || FilePath::Native("/work".into());
    let load = daemon::begin(PathStyle::native(), "p".into(), native(), None);
    assert_eq!(load.path(), &FilePath::Native("/work/ralph.yml".into()));
    let check = load.loaded(loaded("codex"));
    assert_eq!(check.config().core.workspace_root, native());
    match check.validated(loaded("codex")) {
        BackendStep::Ready(prepared) => assert_eq!(prepared.workspace_root(), &native()),
        BackendStep::Detect(_) => panic!("a backend was chosen"),
    }
}
