use autoloop_engine::paths::FilePath;
use autoloop_engine::config::{
    backend_not_forwarded, rpc_backend_label, CliConfig, CoreConfig, EventLoopConfig,
    FeaturesConfig, RalphConfig, ScratchpadConfig,
};

fn with_backend(backend: &str) -> RalphConfig {
    RalphConfig {
        core: CoreConfig {
            workspace_root: FilePath::Text("/work".into()),
            autoloop_preset: None,
            scratchpad: ScratchpadConfig { path: "pad.md".into() },
        },
        event_loop: EventLoopConfig {
            prompt: None,
            prompt_file: "PROMPT.md".into(),
            max_iterations: 2,
        },
        cli: CliConfig { backend: backend.into(), default_mode: "interactive".into() },
        features: FeaturesConfig { auto_merge: true },
    }
}

#[test]
fn an_unset_backend_is_labelled_autoloop() {
    assert_eq!(rpc_backend_label(&with_backend("")), "autoloop");
    assert_eq!(rpc_backend_label(&with_backend("auto")), "autoloop");
}

#[test]
fn a_named_backend_is_echoed() {
    assert_eq!(rpc_backend_label(&with_backend("codex")), "codex");
    assert_eq!(rpc_backend_label(&with_backend("AUTO")), "AUTO");
    assert_eq!(rpc_backend_label(&with_backend(" ")), " ");
}

#[test]
fn labelling_a_label_changes_nothing() {
    for backend in ["", "auto", "codex", "autoloop"] {
        let label = rpc_backend_label(&with_backend(backend));
        assert_eq!(rpc_backend_label(&with_backend(&label)), label);
    }
}

#[test]
fn only_a_named_backend_calls_for_a_warning() {
    assert!(!backend_not_forwarded(&with_backend("")));
    assert!(!backend_not_forwarded(&with_backend("auto")));
    assert!(backend_not_forwarded(&with_backend("codex")));
}
