//! The part of the configuration that the engine reads.

use vstd::prelude::*;

use crate::paths::FilePath;
use crate::text::same_text;

verus! {

/// Where the scratchpad is kept.
#[derive(Debug)]
pub struct ScratchpadConfig {
    pub path: String,
}

/// Workspace, preset and scratchpad.
#[derive(Debug)]
pub struct CoreConfig {
    /// The directory that relative paths are resolved against.
    pub workspace_root: FilePath,
    /// A preset written by hand. Without one a preset is generated.
    pub autoloop_preset: Option<String>,
    pub scratchpad: ScratchpadConfig,
}

/// Prompt and limits of the loop.
#[derive(Debug)]
pub struct EventLoopConfig {
    /// An inline prompt.
    pub prompt: Option<String>,
    /// The file that the prompt is read from when there is no inline one.
    pub prompt_file: String,
    pub max_iterations: u32,
}

/// What was chosen on the command line.
#[derive(Debug)]
pub struct CliConfig {
    pub backend: String,
    pub default_mode: String,
}

/// Optional features.
#[derive(Debug)]
pub struct FeaturesConfig {
    pub auto_merge: bool,
}

/// The configuration of a run.
#[derive(Debug)]
pub struct RalphConfig {
    pub core: CoreConfig,
    pub event_loop: EventLoopConfig,
    pub cli: CliConfig,
    pub features: FeaturesConfig,
}

/// A backend that the user asked for by name: not empty, and not `auto`.
pub open spec fn is_named_backend(backend: Seq<char>) -> bool {
    backend.len() > 0 && backend != "auto"@
}

/// The label under which a backend selection is reported.
pub open spec fn backend_label(backend: Seq<char>) -> Seq<char> {
    if is_named_backend(backend) {
        backend
    } else {
        "autoloop"@
    }
}

/// Whether the configuration names a backend. Such a choice is not forwarded to the
/// subprocess, which uses its own default, so it calls for a warning.
pub fn backend_not_forwarded(config: &RalphConfig) -> (named: bool)
    ensures
        named == is_named_backend(config.cli.backend@),
{
    !same_text(config.cli.backend.as_str(), "auto") && !config.cli.backend.as_str().is_empty()
}

/// Backend label placed on the RPC `LoopStarted` and `IterationStart` events.
///
/// The subprocess uses its own default backend. That is reported as `"autoloop"` when
/// the selection is unset or `auto`; otherwise the configured name is echoed, so that
/// consumers see what the user asked for.
pub fn rpc_backend_label(config: &RalphConfig) -> (label: String)
    ensures
        label@ == backend_label(config.cli.backend@),
{
    if backend_not_forwarded(config) {
        config.cli.backend.clone()
    } else {
        "autoloop".to_owned()
    }
}

/// A label always names a backend, and labelling a label changes nothing.
pub proof fn law_label_names_a_backend(backend: Seq<char>)
    ensures
        is_named_backend(backend_label(backend)),
        backend_label(backend_label(backend)) == backend_label(backend),
{
    reveal_strlit("auto");
    reveal_strlit("autoloop");
}

/// A backend is named exactly when it is neither empty nor `auto`. A named one is its own
/// label, and every other is labelled `autoloop`.
pub proof fn law_only_a_named_backend_is_echoed(backend: Seq<char>)
    ensures
        is_named_backend(backend) <==> backend != Seq::<char>::empty() && backend != "auto"@,
        backend == Seq::<char>::empty() || backend == "auto"@ ==> backend_label(backend)
            == "autoloop"@,
        backend != Seq::<char>::empty() && backend != "auto"@ ==> backend_label(backend)
            == backend,
{
    if backend.len() == 0 {
        assert(backend == Seq::<char>::empty());
    }
}

} // verus!
