//! Starting a headless loop on behalf of a daemon.
//!
//! [`begin`] names the configuration file, [`ConfigLoad::loaded`] makes the configuration
//! fit an unattended run, [`ConfigCheck::checked`] asks for a backend where none is
//! chosen, and [`Prepared::acquired`] gives the request for the engine.

use vstd::prelude::*;

use crate::config::CliConfig;
use crate::config::CoreConfig;
use crate::config::EventLoopConfig;
use crate::config::RalphConfig;
use crate::engine::EngineRequest;
use crate::engine::LoopContext;
use crate::paths::join;
use crate::paths::FilePath;
use crate::paths::FilePathView;
use crate::paths::PathStyle;
use crate::text::same_text;

verus! {

/// The limit that the prompt is shortened to, with an ellipsis where something is left
/// out, before the loop lock shows it.
pub const PROMPT_SUMMARY_LIMIT: usize = 100;

/// Load the configuration, with the defaults where it says nothing.
#[derive(Debug)]
pub struct ConfigLoad {
    path_style: PathStyle,
    prompt: String,
    workspace_root: FilePath,
    path: FilePath,
}

/// Normalise and validate the configuration.
#[derive(Debug)]
pub struct ConfigCheck {
    path_style: PathStyle,
    workspace_root: FilePath,
    config: RalphConfig,
}

/// The step after the configuration has been validated.
#[derive(Debug)]
pub enum BackendStep {
    Detect(BackendDetection),
    Ready(Prepared),
}

/// Find a backend among those that are enabled.
#[derive(Debug)]
pub struct BackendDetection {
    path_style: PathStyle,
    workspace_root: FilePath,
    config: RalphConfig,
}

/// Create the scratchpad's directory, then take the lock of the workspace's primary loop.
/// The lock shows the prompt summary, shortened to [`PROMPT_SUMMARY_LIMIT`].
#[derive(Debug)]
pub struct Prepared {
    path_style: PathStyle,
    workspace_root: FilePath,
    config: RalphConfig,
    prompt_summary: String,
}

/// What a [`ConfigLoad`] holds.
pub struct ConfigLoadView {
    pub path_style: PathStyle,
    pub prompt: Seq<char>,
    pub workspace_root: FilePathView,
    pub path: FilePathView,
}

impl View for ConfigLoad {
    type V = ConfigLoadView;

    closed spec fn view(&self) -> ConfigLoadView {
        ConfigLoadView {
            path_style: self.path_style,
            prompt: self.prompt@,
            workspace_root: self.workspace_root@,
            path: self.path@,
        }
    }
}

/// What a [`ConfigCheck`] holds.
pub struct ConfigCheckView {
    pub path_style: PathStyle,
    pub workspace_root: FilePathView,
    pub config: RalphConfig,
}

impl View for ConfigCheck {
    type V = ConfigCheckView;

    closed spec fn view(&self) -> ConfigCheckView {
        ConfigCheckView {
            path_style: self.path_style,
            workspace_root: self.workspace_root@,
            config: self.config,
        }
    }
}

/// What a [`BackendDetection`] holds.
pub struct BackendDetectionView {
    pub path_style: PathStyle,
    pub workspace_root: FilePathView,
    pub config: RalphConfig,
}

impl View for BackendDetection {
    type V = BackendDetectionView;

    closed spec fn view(&self) -> BackendDetectionView {
        BackendDetectionView {
            path_style: self.path_style,
            workspace_root: self.workspace_root@,
            config: self.config,
        }
    }
}

/// What a [`Prepared`] holds.
pub struct PreparedView {
    pub path_style: PathStyle,
    pub workspace_root: FilePathView,
    pub config: RalphConfig,
    pub prompt_summary: Seq<char>,
}

impl View for Prepared {
    type V = PreparedView;

    closed spec fn view(&self) -> PreparedView {
        PreparedView {
            path_style: self.path_style,
            workspace_root: self.workspace_root@,
            config: self.config,
            prompt_summary: self.prompt_summary@,
        }
    }
}

/// What a [`BackendStep`] holds.
pub enum BackendStepView {
    Detect(BackendDetectionView),
    Ready(PreparedView),
}

impl View for BackendStep {
    type V = BackendStepView;

    open spec fn view(&self) -> BackendStepView {
        match self {
            BackendStep::Detect(step) => BackendStepView::Detect(step@),
            BackendStep::Ready(step) => BackendStepView::Ready(step@),
        }
    }
}

/// What went wrong before the engine was started.
#[derive(Debug, Clone, Copy, PartialEq, Eq, Structural)]
pub enum DaemonFailure {
    /// The configuration is not valid.
    Validation,
    /// The lock is held by another loop.
    Lock,
}

/// What is reported for a failure.
pub open spec fn failure_text(failure: DaemonFailure) -> Seq<char> {
    match failure {
        DaemonFailure::Validation => "Configuration validation failed"@,
        DaemonFailure::Lock => "Failed to acquire loop lock — another loop may be running"@,
    }
}

impl DaemonFailure {
    /// What is reported for the failure.
    pub fn message(self) -> (text: &'static str)
        ensures
            text@ == failure_text(self),
    {
        match self {
            DaemonFailure::Validation => "Configuration validation failed",
            DaemonFailure::Lock => "Failed to acquire loop lock — another loop may be running",
        }
    }
}

/// The configuration file: the one given, else `ralph.yml` in the workspace.
pub open spec fn config_file(
    style: PathStyle,
    workspace_root: FilePathView,
    config_path: Option<FilePath>,
) -> FilePathView {
    match config_path {
        Some(path) => path@,
        None => crate::paths::joined(style, workspace_root, "ralph.yml"@),
    }
}

/// `config` made to fit an unattended run: the given workspace and prompt, no prompt
/// file, and the autonomous mode. All else is kept.
pub open spec fn made_autonomous(
    config: RalphConfig,
    prompt: Seq<char>,
    workspace_root: FilePathView,
    made: RalphConfig,
) -> bool {
    &&& made.core.workspace_root@ == workspace_root
    &&& made.core.autoloop_preset == config.core.autoloop_preset
    &&& made.core.scratchpad == config.core.scratchpad
    &&& made.event_loop.prompt matches Some(given)
    &&& given@ == prompt
    &&& made.event_loop.prompt_file@ == Seq::<char>::empty()
    &&& made.event_loop.max_iterations == config.event_loop.max_iterations
    &&& made.cli.default_mode@ == "autonomous"@
    &&& made.cli.backend == config.cli.backend
    &&& made.features == config.features
}

/// What the loop lock shows for a configuration, before it is shortened.
pub open spec fn lock_summary(config: RalphConfig) -> Seq<char> {
    match config.event_loop.prompt {
        Some(prompt) => prompt@,
        None => "[daemon]"@,
    }
}

/// The step that locks the workspace.
pub open spec fn lock_step(
    style: PathStyle,
    workspace_root: FilePathView,
    config: RalphConfig,
) -> PreparedView {
    PreparedView { path_style: style, workspace_root, config, prompt_summary: lock_summary(config) }
}

/// The step after the configuration was found valid: a backend is looked for exactly when
/// the choice is `auto`.
pub open spec fn backend_step(
    style: PathStyle,
    workspace_root: FilePathView,
    config: RalphConfig,
) -> BackendStepView {
    if config.cli.backend@ == "auto"@ {
        BackendStepView::Detect(BackendDetectionView { path_style: style, workspace_root, config })
    } else {
        BackendStepView::Ready(lock_step(style, workspace_root, config))
    }
}

/// `config` with another backend.
pub open spec fn with_backend(config: RalphConfig, backend: String) -> RalphConfig {
    RalphConfig { cli: CliConfig { backend, ..config.cli }, ..config }
}

/// The request for the engine: an unattended run never has a display and never speaks
/// the RPC protocol.
pub open spec fn daemon_request(
    style: PathStyle,
    config: RalphConfig,
    context: LoopContext,
) -> EngineRequest {
    EngineRequest {
        path_style: style,
        config,
        context: Some(context),
        auto_merge_override: None,
        loop_id: None,
        use_colors: false,
        tui: false,
        rpc: false,
    }
}

/// The first step: which configuration file to load.
pub fn begin(
    path_style: PathStyle,
    prompt: String,
    workspace_root: FilePath,
    config_path: Option<FilePath>,
) -> (step: ConfigLoad)
    ensures
        step@ == (ConfigLoadView {
            path_style,
            prompt: prompt@,
            workspace_root: workspace_root@,
            path: config_file(path_style, workspace_root@, config_path),
        }),
        config_path matches Some(given) ==> step@.path == given@,
{
    let path = match config_path {
        Some(given) => given,
        None => join(&path_style, &workspace_root, "ralph.yml"),
    };
    ConfigLoad { path_style, prompt, workspace_root, path }
}

impl ConfigLoad {
    /// The configuration file.
    pub fn path(&self) -> (file: &FilePath)
        ensures
            file@ == self@.path,
    {
        &self.path
    }

    /// Go on with the configuration that was loaded.
    pub fn loaded(self, config: RalphConfig) -> (step: ConfigCheck)
        ensures
            step@.path_style == self@.path_style,
            step@.workspace_root == self@.workspace_root,
            made_autonomous(config, self@.prompt, self@.workspace_root, step@.config),
    {
        let made = RalphConfig {
            core: CoreConfig {
                workspace_root: self.workspace_root.duplicate(),
                autoloop_preset: config.core.autoloop_preset,
                scratchpad: config.core.scratchpad,
            },
            event_loop: EventLoopConfig {
                prompt: Some(self.prompt),
                prompt_file: String::new(),
                max_iterations: config.event_loop.max_iterations,
            },
            cli: CliConfig {
                backend: config.cli.backend,
                default_mode: "autonomous".to_owned(),
            },
            features: config.features,
        };
        ConfigCheck {
            path_style: self.path_style,
            workspace_root: self.workspace_root,
            config: made,
        }
    }
}

fn prepare(path_style: PathStyle, workspace_root: FilePath, config: RalphConfig) -> (step: Prepared)
    ensures
        step@ == lock_step(path_style, workspace_root@, config),
{
    let prompt_summary = match &config.event_loop.prompt {
        Some(prompt) => prompt.clone(),
        None => "[daemon]".to_owned(),
    };
    Prepared { path_style, workspace_root, config, prompt_summary }
}

impl ConfigCheck {
    /// The configuration to validate.
    pub fn config(&self) -> (config: &RalphConfig)
        ensures
            *config == self@.config,
    {
        &self.config
    }

    /// Go on with the configuration as it was normalised and found valid.
    pub fn validated(self, config: RalphConfig) -> (step: BackendStep)
        ensures
            step@ == backend_step(self@.path_style, self@.workspace_root, config),
    {
        if same_text(config.cli.backend.as_str(), "auto") {
            BackendStep::Detect(
                BackendDetection {
                    path_style: self.path_style,
                    workspace_root: self.workspace_root,
                    config,
                },
            )
        } else {
            BackendStep::Ready(prepare(self.path_style, self.workspace_root, config))
        }
    }

    /// Go on when the configuration has been validated: with what it was normalised to
    /// where it is valid, with nothing where it is not.
    pub fn checked(self, valid: Option<RalphConfig>) -> (step: Result<BackendStep, DaemonFailure>)
        ensures
            match (valid, step) {
                (Some(config), Ok(next)) => next@ == backend_step(
                    self@.path_style,
                    self@.workspace_root,
                    config,
                ),
                (None, Err(failure)) => failure == DaemonFailure::Validation,
                _ => false,
            },
    {
        match valid {
            Some(config) => Ok(self.validated(config)),
            None => Err(DaemonFailure::Validation),
        }
    }
}

impl BackendDetection {
    /// The configuration that tells which backends are enabled.
    pub fn config(&self) -> (config: &RalphConfig)
        ensures
            *config == self@.config,
    {
        &self.config
    }

    /// Go on with the backend that was found.
    pub fn detected(self, backend: String) -> (step: Prepared)
        ensures
            step@ == lock_step(
                self@.path_style,
                self@.workspace_root,
                with_backend(self@.config, backend),
            ),
    {
        let config = RalphConfig {
            core: self.config.core,
            event_loop: self.config.event_loop,
            cli: CliConfig { backend, default_mode: self.config.cli.default_mode },
            features: self.config.features,
        };
        prepare(self.path_style, self.workspace_root, config)
    }
}

impl Prepared {
    /// The workspace to lock.
    pub fn workspace_root(&self) -> (file: &FilePath)
        ensures
            file@ == self@.workspace_root,
    {
        &self.workspace_root
    }

    /// The configuration of the run.
    pub fn config(&self) -> (config: &RalphConfig)
        ensures
            *config == self@.config,
    {
        &self.config
    }

    /// What the lock shows, before it is shortened.
    pub fn prompt_summary(&self) -> (text: &str)
        ensures
            text@ == self@.prompt_summary,
    {
        self.prompt_summary.as_str()
    }

    /// Go on when the lock is held. `context` is the workspace's primary loop.
    pub fn locked(self, context: LoopContext) -> (request: EngineRequest)
        ensures
            request == daemon_request(self@.path_style, self@.config, context),
    {
        EngineRequest {
            path_style: self.path_style,
            config: self.config,
            context: Some(context),
            auto_merge_override: None,
            loop_id: None,
            use_colors: false,
            tui: false,
            rpc: false,
        }
    }

    /// Go on when the lock has been tried: with the workspace's primary loop where it is
    /// held, with nothing where it could not be taken.
    pub fn acquired(self, context: Option<LoopContext>) -> (request: Result<
        EngineRequest,
        DaemonFailure,
    >)
        ensures
            match (context, request) {
                (Some(primary), Ok(started)) => started == daemon_request(
                    self@.path_style,
                    self@.config,
                    primary,
                ),
                (None, Err(failure)) => failure == DaemonFailure::Lock,
                _ => false,
            },
    {
        match context {
            Some(primary) => Ok(self.locked(primary)),
            None => Err(DaemonFailure::Lock),
        }
    }
}

/// A daemon's run is headless, whatever the configuration says.
pub proof fn law_daemon_runs_headless(
    style: PathStyle,
    config: RalphConfig,
    context: LoopContext,
)
    ensures
        crate::run::mode_of(
            daemon_request(style, config, context).rpc,
            daemon_request(style, config, context).tui,
        ) == crate::run::RunMode::Headless,
{
}

/// A configuration made for an unattended run has the given prompt: no file is read for
/// it, and the lock shows it.
pub proof fn law_daemon_uses_the_given_prompt(
    style: PathStyle,
    config: RalphConfig,
    prompt: Seq<char>,
    workspace_root: FilePathView,
    made: RalphConfig,
)
    requires
        made_autonomous(config, prompt, workspace_root, made),
    ensures
        crate::engine::prompt_source(style, made) == crate::engine::PromptSource::Inline(prompt),
        lock_summary(made) == prompt,
{
}

/// Finding a backend changes nothing but the backend.
pub proof fn law_detection_changes_the_backend_alone(
    style: PathStyle,
    config: RalphConfig,
    backend: String,
)
    ensures
        with_backend(config, backend).cli.backend == backend,
        with_backend(config, backend).cli.default_mode == config.cli.default_mode,
        with_backend(config, backend).core == config.core,
        with_backend(config, backend).event_loop == config.event_loop,
        with_backend(config, backend).features == config.features,
        lock_summary(with_backend(config, backend)) == lock_summary(config),
        crate::engine::prompt_source(style, with_backend(config, backend))
            == crate::engine::prompt_source(style, config),
{
}

/// A given configuration file is the one that is loaded, whatever its form and wherever the
/// workspace lies. Only without one is it `ralph.yml` in the workspace.
pub proof fn law_given_configuration_file_is_loaded(
    style: PathStyle,
    workspace_root: FilePathView,
    given: FilePath,
)
    ensures
        config_file(style, workspace_root, Some(given)) == given@,
        config_file(style, workspace_root, None) == crate::paths::joined(
            style,
            workspace_root,
            "ralph.yml"@,
        ),
{
}

/// Where a configuration file is given, the workspace and the platform play no part.
pub proof fn law_given_configuration_file_ignores_the_workspace(
    style: PathStyle,
    workspace_root: FilePathView,
    other_style: PathStyle,
    other_root: FilePathView,
    given: FilePath,
)
    ensures
        config_file(style, workspace_root, Some(given)) == config_file(
            other_style,
            other_root,
            Some(given),
        ),
{
}

/// On Unix the file that is loaded without one given is `ralph.yml` below the workspace.
pub proof fn law_configuration_file_of_the_workspace(style: PathStyle, workspace: Seq<char>)
    requires
        style.unix(),
        workspace.len() > 0,
        workspace.last() != '/',
    ensures
        config_file(style, FilePathView::Text(workspace), None) == FilePathView::Text(
            workspace + "/ralph.yml"@,
        ),
{
    reveal_strlit("ralph.yml");
    reveal_strlit("/ralph.yml");
    assert(workspace.push('/') + "ralph.yml"@ =~= workspace + "/ralph.yml"@);
}

/// What an unattended run changes in its configuration: workspace, prompt, prompt file and
/// mode, as given. All else is as it was loaded.
pub proof fn law_unattended_run_changes_nothing_else(
    config: RalphConfig,
    prompt: Seq<char>,
    workspace_root: FilePathView,
    made: RalphConfig,
)
    ensures
        made_autonomous(config, prompt, workspace_root, made) <==> {
            &&& made.core.workspace_root@ == workspace_root
            &&& made.event_loop.prompt is Some
            &&& made.event_loop.prompt->0@ == prompt
            &&& made.event_loop.prompt_file@.len() == 0
            &&& made.cli.default_mode@ == "autonomous"@
            &&& made.core.autoloop_preset == config.core.autoloop_preset
            &&& made.core.scratchpad == config.core.scratchpad
            &&& made.event_loop.max_iterations == config.event_loop.max_iterations
            &&& made.cli.backend == config.cli.backend
            &&& made.features == config.features
        },
{
    if made.event_loop.prompt_file@.len() == 0 {
        assert(made.event_loop.prompt_file@ == Seq::<char>::empty());
    }
}

/// A backend is looked for exactly when the choice is `auto`; else the workspace is locked
/// at once. Workspace and configuration are kept, and the lock shows the prompt, or
/// `[daemon]` where there is none.
pub proof fn law_backend_is_looked_for_on_auto_only(
    style: PathStyle,
    workspace_root: FilePathView,
    config: RalphConfig,
)
    ensures
        match backend_step(style, workspace_root, config) {
            BackendStepView::Detect(detection) => {
                &&& config.cli.backend@ == "auto"@
                &&& detection.path_style == style
                &&& detection.workspace_root == workspace_root
                &&& detection.config == config
            },
            BackendStepView::Ready(prepared) => {
                &&& config.cli.backend@ != "auto"@
                &&& prepared.path_style == style
                &&& prepared.workspace_root == workspace_root
                &&& prepared.config == config
                &&& config.event_loop.prompt matches Some(prompt) ==> prepared.prompt_summary
                    == prompt@
                &&& config.event_loop.prompt is None ==> prepared.prompt_summary == "[daemon]"@
            },
        },
{
}

/// The step that locks the workspace keeps workspace and configuration, and shows the
/// prompt, or `[daemon]` where there is none.
pub proof fn law_lock_shows_the_prompt(
    style: PathStyle,
    workspace_root: FilePathView,
    config: RalphConfig,
)
    ensures
        ({
            let prepared = lock_step(style, workspace_root, config);
            &&& prepared.path_style == style
            &&& prepared.workspace_root == workspace_root
            &&& prepared.config == config
            &&& prepared.prompt_summary == lock_summary(config)
            &&& config.event_loop.prompt matches Some(prompt) ==> lock_summary(config) == prompt@
            &&& config.event_loop.prompt is None ==> lock_summary(config) == "[daemon]"@
        }),
{
}

/// The engine is started with the configuration and the primary loop, and with nothing that
/// an unattended run does not have: no override, no id, no colours, no display, no protocol.
pub proof fn law_engine_is_started_unattended(
    style: PathStyle,
    config: RalphConfig,
    context: LoopContext,
)
    ensures
        ({
            let request = daemon_request(style, config, context);
            &&& request.path_style == style
            &&& request.config == config
            &&& request.context == Some(context)
            &&& request.auto_merge_override is None
            &&& request.loop_id is None
            &&& !request.use_colors
            &&& !request.tui
            &&& !request.rpc
        }),
{
}

/// The text of each failure.
pub proof fn law_refusals_are_told_by_their_texts()
    ensures
        failure_text(DaemonFailure::Validation) == "Configuration validation failed"@,
        failure_text(DaemonFailure::Lock)
            == "Failed to acquire loop lock — another loop may be running"@,
{
}

} // verus!
