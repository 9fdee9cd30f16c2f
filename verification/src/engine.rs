//! Driving a configured preset as the orchestration engine.
//!
//! A run is a chain of steps. Each step names the outside work to do and takes what came
//! of it; the next step follows from that:
//!
//! 1. [`begin`] picks the preset: check the configured one, or generate one.
//! 2. [`PresetCheck::checked`] or [`PresetGeneration::generated`] picks the prompt, which
//!    may have to be read from a file ([`PromptRead::read`]).
//! 3. [`EventReset::reset`] gives the subprocess to launch, once the event file of an
//!    earlier run is out of the way.
//! 4. [`Launch::ended`] takes the outcome of the run; outside RPC mode the event file is
//!    then read for the report ([`EventsRead::read`]).
//! 5. [`Report::complete`] gives what the completion bookkeeping needs.

use vstd::prelude::*;
use vstd::string::StringExecFns;

use crate::config::backend_not_forwarded;
use crate::config::rpc_backend_label;
use crate::config::RalphConfig;
use crate::paths::join;
use crate::paths::resolve;
use crate::paths::FilePath;
use crate::paths::FilePathView;
use crate::paths::PathStyle;
use crate::run::run_mode;
use crate::run::RunFailure;
use crate::run::RunMode;
use crate::termination::map_stop_reason;
use crate::termination::TerminationReason;
use crate::text::blank;
use crate::text::decimal_text;

verus! {

/// The identity of a loop.
#[derive(Debug, PartialEq)]
pub struct LoopContext {
    pub loop_id: Option<String>,
}

/// What a run is started with.
#[derive(Debug)]
pub struct EngineRequest {
    /// How the paths of the run are read.
    pub path_style: PathStyle,
    pub config: RalphConfig,
    /// Without one the run takes no part in the merge queue and the registry.
    pub context: Option<LoopContext>,
    pub auto_merge_override: Option<bool>,
    pub loop_id: Option<String>,
    pub use_colors: bool,
    pub tui: bool,
    pub rpc: bool,
}

/// What the subprocess reported when it ended. `C` is an amount of money.
#[derive(Debug)]
pub struct AutoloopRunSummary<C> {
    pub iterations: u32,
    pub stop_reason: String,
    pub cost_usd: C,
}

/// The result of a run as the event file tells it.
#[derive(Debug)]
pub struct RunResult {
    pub run_id: String,
    pub iterations: u32,
    pub stop_reason: String,
}

/// The figures of a run. `D` is a span of time.
#[derive(Debug, PartialEq)]
pub struct RunStats<C, D> {
    pub iterations: u32,
    pub elapsed: D,
    pub cost_usd: C,
}

/// Why a run ended without a termination reason.
#[derive(Debug, PartialEq)]
pub enum EngineError {
    /// The configured preset holds no `autoloops.toml`.
    PresetNotFound { preset: FilePath },
    /// No preset could be generated.
    PresetGeneration,
    /// The prompt file could not be read.
    PromptRead { path: FilePath },
    /// The subprocess could not be driven to its end.
    Run { mode: RunMode, failure: RunFailure },
}

/// What is reported for an error.
pub open spec fn error_text(error: EngineError) -> Seq<char> {
    match error {
        EngineError::PresetNotFound { preset } =>
            "autoloop preset not found (no autoloops.toml): "@ + crate::paths::shown(preset@),
        EngineError::PresetGeneration => "generating an autoloop preset from the hats topology"@,
        EngineError::PromptRead { path } => "reading prompt file "@ + crate::paths::shown(path@),
        EngineError::Run { mode: RunMode::Rpc, .. } => "autoloop RPC run failed"@,
        EngineError::Run { mode: RunMode::Tui, .. } => "autoloop TUI run failed"@,
        EngineError::Run { mode: RunMode::Headless, failure } => crate::run::failure_text(failure),
    }
}

/// The texts that an error puts in front of its cause, the outermost first. With the
/// display and in RPC mode the failure's own text stands between the mode's and the cause.
pub open spec fn error_contexts(error: EngineError) -> Seq<Seq<char>> {
    match error {
        EngineError::Run { mode: RunMode::Rpc, failure }
        | EngineError::Run { mode: RunMode::Tui, failure } =>
            seq![error_text(error), crate::run::failure_text(failure)],
        _ => seq![error_text(error)],
    }
}

/// The texts in a list of strings.
pub open spec fn texts(strings: Seq<String>) -> Seq<Seq<char>> {
    strings.map_values(|string: String| string@)
}

impl EngineError {
    /// What is reported for the error.
    pub fn message(&self) -> (text: String)
        ensures
            text@ == error_text(*self),
    {
        match self {
            EngineError::PresetNotFound { preset } => {
                let shown = preset.display();
                "autoloop preset not found (no autoloops.toml): ".to_owned().concat(shown.as_str())
            },
            EngineError::PresetGeneration =>
                "generating an autoloop preset from the hats topology".to_owned(),
            EngineError::PromptRead { path } => {
                let shown = path.display();
                "reading prompt file ".to_owned().concat(shown.as_str())
            },
            EngineError::Run { mode: RunMode::Rpc, .. } => "autoloop RPC run failed".to_owned(),
            EngineError::Run { mode: RunMode::Tui, .. } => "autoloop TUI run failed".to_owned(),
            EngineError::Run { mode: RunMode::Headless, failure } => failure.message().to_owned(),
        }
    }

    /// The texts that the error puts in front of its cause, the outermost first.
    pub fn contexts(&self) -> (all: Vec<String>)
        ensures
            texts(all@) == error_contexts(*self),
    {
        let mut all: Vec<String> = Vec::new();
        all.push(self.message());
        match self {
            EngineError::Run { mode: RunMode::Rpc, failure } => {
                all.push(failure.message().to_owned());
            },
            EngineError::Run { mode: RunMode::Tui, failure } => {
                all.push(failure.message().to_owned());
            },
            _ => {},
        }
        all
    }
}

/// The directory of the engine's own files in a workspace.
pub open spec fn engine_dir(style: PathStyle, workspace: FilePathView) -> FilePathView {
    crate::paths::joined(style, workspace, ".ralph"@)
}

/// Where a generated preset goes.
pub open spec fn generated_preset(style: PathStyle, workspace: FilePathView) -> FilePathView {
    crate::paths::joined(style, engine_dir(style, workspace), "autoloop-preset"@)
}

/// The file that makes a directory a preset.
pub open spec fn preset_marker(style: PathStyle, preset: FilePathView) -> FilePathView {
    crate::paths::joined(style, preset, "autoloops.toml"@)
}

/// The file that the subprocess writes its events to.
pub open spec fn event_file(style: PathStyle, workspace: FilePathView) -> FilePathView {
    crate::paths::joined(style, engine_dir(style, workspace), "autoloop-events.ndjson"@)
}

/// Where a run's prompt comes from.
pub enum PromptSource {
    /// Known already.
    Inline(Seq<char>),
    /// The text of a file.
    File(FilePathView),
}

/// An inline prompt comes first, then the prompt file. A blank file name means an empty
/// prompt.
pub open spec fn prompt_source(style: PathStyle, config: RalphConfig) -> PromptSource {
    match config.event_loop.prompt {
        Some(prompt) => PromptSource::Inline(prompt@),
        None => if crate::text::is_blank(config.event_loop.prompt_file@) {
            PromptSource::Inline(Seq::empty())
        } else {
            PromptSource::File(
                crate::paths::resolved(
                    style,
                    config.core.workspace_root@,
                    config.event_loop.prompt_file@,
                ),
            )
        },
    }
}

/// The loop's id: the one given, else the one of the context, else `primary`.
pub open spec fn effective_loop_id(
    loop_id: Option<String>,
    context: Option<LoopContext>,
) -> Seq<char> {
    match (loop_id, context) {
        (Some(id), _) => id@,
        (None, Some(LoopContext { loop_id: Some(id) })) => id@,
        _ => "primary"@,
    }
}

/// Whether the run is merged when done: the override, else the configured choice.
pub open spec fn effective_auto_merge(request: EngineRequest) -> bool {
    match request.auto_merge_override {
        Some(merge) => merge,
        None => request.config.features.auto_merge,
    }
}

/// The line that tells people how a run went.
pub open spec fn result_line(result: RunResult) -> Seq<char> {
    "autoloop engine: run_id="@ + result.run_id@ + " iterations="@ + crate::text::decimal(
        result.iterations as nat,
    ) + " stop_reason="@ + result.stop_reason@
}

/// The first step of a run.
#[derive(Debug)]
pub enum PresetStep {
    Check(PresetCheck),
    Generate(PresetGeneration),
}

/// Find out whether the marker is a file.
#[derive(Debug)]
pub struct PresetCheck {
    request: EngineRequest,
    preset: FilePath,
    marker: FilePath,
}

/// Generate a preset from the configured topology.
#[derive(Debug)]
pub struct PresetGeneration {
    request: EngineRequest,
    preset: FilePath,
}

/// The step after the preset has been found.
#[derive(Debug)]
pub enum PromptStep {
    Read(PromptRead),
    Ready(EventReset),
}

/// Read the prompt from a file.
#[derive(Debug)]
pub struct PromptRead {
    request: EngineRequest,
    preset: FilePath,
    path: FilePath,
}

/// Create the engine's directory and remove the event file; neither has to succeed. Warn
/// where the configured backend is not forwarded.
#[derive(Debug)]
pub struct EventReset {
    request: EngineRequest,
    preset: FilePath,
    prompt: String,
    dir: FilePath,
    events_path: FilePath,
    warn_backend: bool,
}

/// What a mode of running needs besides the subprocess itself.
#[derive(Debug, PartialEq)]
pub enum LaunchMode {
    Rpc { backend: String, max_iterations: Option<u32> },
    Tui,
    Headless,
}

/// Run the preset with the prompt in the request's workspace.
#[derive(Debug)]
pub struct Launch {
    request: EngineRequest,
    preset: FilePath,
    prompt: String,
    events_path: FilePath,
    mode: LaunchMode,
}

/// The step after the run has ended.
#[derive(Debug)]
pub enum EndStep<C> {
    Read(EventsRead<C>),
    Report(Report<C>),
}

/// Read the result of the run from the event file.
#[derive(Debug)]
pub struct EventsRead<C> {
    request: EngineRequest,
    prompt: String,
    events_path: FilePath,
    summary: AutoloopRunSummary<C>,
}

/// Print a line, if there is one.
#[derive(Debug)]
pub struct Report<C> {
    request: EngineRequest,
    prompt: String,
    summary: AutoloopRunSummary<C>,
    line: Option<String>,
}

/// Do the completion bookkeeping; the run then returns `reason`.
#[derive(Debug)]
pub struct Completion<C, D> {
    pub reason: TerminationReason,
    pub stats: RunStats<C, D>,
    pub context: Option<LoopContext>,
    pub scratchpad: String,
    pub prompt: String,
    pub auto_merge: bool,
    pub loop_id: String,
    pub use_colors: bool,
    /// Whether the banner may be printed. In RPC mode standard output is the protocol's.
    pub banner: bool,
}

/// What a [`LaunchMode`] says.
pub enum LaunchModeView {
    Rpc { backend: Seq<char>, max_iterations: Option<u32> },
    Tui,
    Headless,
}

impl View for LaunchMode {
    type V = LaunchModeView;

    open spec fn view(&self) -> LaunchModeView {
        match self {
            LaunchMode::Rpc { backend, max_iterations } => LaunchModeView::Rpc {
                backend: backend@,
                max_iterations: *max_iterations,
            },
            LaunchMode::Tui => LaunchModeView::Tui,
            LaunchMode::Headless => LaunchModeView::Headless,
        }
    }
}

/// What a [`PresetCheck`] holds.
pub struct PresetCheckView {
    pub request: EngineRequest,
    pub preset: FilePathView,
    pub marker: FilePathView,
}

impl View for PresetCheck {
    type V = PresetCheckView;

    closed spec fn view(&self) -> PresetCheckView {
        PresetCheckView {
            request: self.request,
            preset: self.preset@,
            marker: self.marker@,
        }
    }
}

/// What a [`PresetGeneration`] holds.
pub struct PresetGenerationView {
    pub request: EngineRequest,
    pub preset: FilePathView,
}

impl View for PresetGeneration {
    type V = PresetGenerationView;

    closed spec fn view(&self) -> PresetGenerationView {
        PresetGenerationView {
            request: self.request,
            preset: self.preset@,
        }
    }
}

/// What a [`PromptRead`] holds.
pub struct PromptReadView {
    pub request: EngineRequest,
    pub preset: FilePathView,
    pub path: FilePathView,
}

impl View for PromptRead {
    type V = PromptReadView;

    closed spec fn view(&self) -> PromptReadView {
        PromptReadView {
            request: self.request,
            preset: self.preset@,
            path: self.path@,
        }
    }
}

/// What an [`EventReset`] holds.
pub struct EventResetView {
    pub request: EngineRequest,
    pub preset: FilePathView,
    pub prompt: Seq<char>,
    pub dir: FilePathView,
    pub events_path: FilePathView,
    pub warn_backend: bool,
}

impl View for EventReset {
    type V = EventResetView;

    closed spec fn view(&self) -> EventResetView {
        EventResetView {
            request: self.request,
            preset: self.preset@,
            prompt: self.prompt@,
            dir: self.dir@,
            events_path: self.events_path@,
            warn_backend: self.warn_backend,
        }
    }
}

/// What a [`Launch`] holds.
pub struct LaunchView {
    pub request: EngineRequest,
    pub preset: FilePathView,
    pub prompt: Seq<char>,
    pub events_path: FilePathView,
    pub mode: LaunchModeView,
}

impl View for Launch {
    type V = LaunchView;

    closed spec fn view(&self) -> LaunchView {
        LaunchView {
            request: self.request,
            preset: self.preset@,
            prompt: self.prompt@,
            events_path: self.events_path@,
            mode: self.mode@,
        }
    }
}

/// What an [`EventsRead`] holds.
pub struct EventsReadView<C> {
    pub request: EngineRequest,
    pub prompt: Seq<char>,
    pub events_path: FilePathView,
    pub summary: AutoloopRunSummary<C>,
}

impl<C> View for EventsRead<C> {
    type V = EventsReadView<C>;

    closed spec fn view(&self) -> EventsReadView<C> {
        EventsReadView {
            request: self.request,
            prompt: self.prompt@,
            events_path: self.events_path@,
            summary: self.summary,
        }
    }
}

/// What a [`Report`] holds.
pub struct ReportView<C> {
    pub request: EngineRequest,
    pub prompt: Seq<char>,
    pub summary: AutoloopRunSummary<C>,
    pub line: Option<Seq<char>>,
}

impl<C> View for Report<C> {
    type V = ReportView<C>;

    closed spec fn view(&self) -> ReportView<C> {
        ReportView {
            request: self.request,
            prompt: self.prompt@,
            summary: self.summary,
            line: match self.line {
                Some(text) => Some(text@),
                None => None,
            },
        }
    }
}

/// What a [`Completion`] holds.
pub struct CompletionView<C, D> {
    pub reason: TerminationReason,
    pub stats: RunStats<C, D>,
    pub context: Option<LoopContext>,
    pub scratchpad: Seq<char>,
    pub prompt: Seq<char>,
    pub auto_merge: bool,
    pub loop_id: Seq<char>,
    pub use_colors: bool,
    pub banner: bool,
}

impl<C, D> View for Completion<C, D> {
    type V = CompletionView<C, D>;

    open spec fn view(&self) -> CompletionView<C, D> {
        CompletionView {
            reason: self.reason,
            stats: self.stats,
            context: self.context,
            scratchpad: self.scratchpad@,
            prompt: self.prompt@,
            auto_merge: self.auto_merge,
            loop_id: self.loop_id@,
            use_colors: self.use_colors,
            banner: self.banner,
        }
    }
}

/// What a [`PresetStep`] holds.
pub enum PresetStepView {
    Check(PresetCheckView),
    Generate(PresetGenerationView),
}

impl View for PresetStep {
    type V = PresetStepView;

    open spec fn view(&self) -> PresetStepView {
        match self {
            PresetStep::Check(step) => PresetStepView::Check(step@),
            PresetStep::Generate(step) => PresetStepView::Generate(step@),
        }
    }
}

/// What a [`PromptStep`] holds.
pub enum PromptStepView {
    Read(PromptReadView),
    Ready(EventResetView),
}

impl View for PromptStep {
    type V = PromptStepView;

    open spec fn view(&self) -> PromptStepView {
        match self {
            PromptStep::Read(step) => PromptStepView::Read(step@),
            PromptStep::Ready(step) => PromptStepView::Ready(step@),
        }
    }
}

/// What an [`EndStep`] holds.
pub enum EndStepView<C> {
    Read(EventsReadView<C>),
    Report(ReportView<C>),
}

impl<C> View for EndStep<C> {
    type V = EndStepView<C>;

    open spec fn view(&self) -> EndStepView<C> {
        match self {
            EndStep::Read(step) => EndStepView::Read(step@),
            EndStep::Report(step) => EndStepView::Report(step@),
        }
    }
}

/// The first step for a request: check the configured preset, or generate one where none
/// is configured.
pub open spec fn first_step(request: EngineRequest) -> PresetStepView {
    let style = request.path_style;
    let workspace = request.config.core.workspace_root@;
    match request.config.core.autoloop_preset {
        Some(path) => {
            let preset = crate::paths::resolved(style, workspace, path@);
            PresetStepView::Check(
                PresetCheckView { request, preset, marker: preset_marker(style, preset) },
            )
        },
        None => PresetStepView::Generate(
            PresetGenerationView { request, preset: generated_preset(style, workspace) },
        ),
    }
}

/// The step that clears the event file, once preset and prompt are known.
pub open spec fn reset_step(
    request: EngineRequest,
    preset: FilePathView,
    prompt: Seq<char>,
) -> EventResetView {
    EventResetView {
        request,
        preset,
        prompt,
        dir: engine_dir(request.path_style, request.config.core.workspace_root@),
        events_path: event_file(request.path_style, request.config.core.workspace_root@),
        warn_backend: crate::config::is_named_backend(request.config.cli.backend@),
    }
}

/// The step after the preset has been found: read the prompt file, or go on with the
/// prompt that is known.
pub open spec fn prompt_step(request: EngineRequest, preset: FilePathView) -> PromptStepView {
    match prompt_source(request.path_style, request.config) {
        PromptSource::Inline(prompt) => PromptStepView::Ready(reset_step(request, preset, prompt)),
        PromptSource::File(path) => PromptStepView::Read(PromptReadView { request, preset, path }),
    }
}

/// How a request is run.
pub open spec fn launch_mode(request: EngineRequest) -> LaunchModeView {
    match crate::run::mode_of(request.rpc, request.tui) {
        RunMode::Rpc => LaunchModeView::Rpc {
            backend: crate::config::backend_label(request.config.cli.backend@),
            max_iterations: Some(request.config.event_loop.max_iterations),
        },
        RunMode::Tui => LaunchModeView::Tui,
        RunMode::Headless => LaunchModeView::Headless,
    }
}

/// What is launched when the event file has been cleared.
pub open spec fn launch_step(ready: EventResetView) -> LaunchView {
    LaunchView {
        request: ready.request,
        preset: ready.preset,
        prompt: ready.prompt,
        events_path: ready.events_path,
        mode: launch_mode(ready.request),
    }
}

/// The step after a run that ended with `summary`: outside RPC mode the event file is read
/// for the report, in RPC mode nothing is reported.
pub open spec fn end_step<C>(launch: LaunchView, summary: AutoloopRunSummary<C>) -> EndStepView<
    C,
> {
    if launch.request.rpc {
        EndStepView::Report(
            ReportView { request: launch.request, prompt: launch.prompt, summary, line: None },
        )
    } else {
        EndStepView::Read(
            EventsReadView {
                request: launch.request,
                prompt: launch.prompt,
                events_path: launch.events_path,
                summary,
            },
        )
    }
}

/// The report of a run whose event file has been read.
pub open spec fn report_step<C>(read: EventsReadView<C>, result: Option<RunResult>) -> ReportView<
    C,
> {
    ReportView {
        request: read.request,
        prompt: read.prompt,
        summary: read.summary,
        line: match result {
            Some(found) => Some(result_line(found)),
            None => None,
        },
    }
}

/// What the completion bookkeeping gets.
pub open spec fn completion<C, D>(report: ReportView<C>, elapsed: D) -> CompletionView<C, D> {
    let request = report.request;
    CompletionView {
        reason: crate::termination::termination_of(report.summary.stop_reason@),
        stats: RunStats {
            iterations: report.summary.iterations,
            elapsed,
            cost_usd: report.summary.cost_usd,
        },
        context: request.context,
        scratchpad: request.config.core.scratchpad.path@,
        prompt: report.prompt,
        auto_merge: effective_auto_merge(request),
        loop_id: effective_loop_id(request.loop_id, request.context),
        use_colors: request.use_colors,
        banner: !request.rpc,
    }
}

/// The first step of a run.
pub fn begin(request: EngineRequest) -> (step: PresetStep)
    ensures
        step@ == first_step(request),
{
    let style = request.path_style;
    match &request.config.core.autoloop_preset {
        Some(path) => {
            let preset = resolve(
                &style,
                &request.config.core.workspace_root,
                path.as_str(),
            );
            let marker = join(&style, &preset, "autoloops.toml");
            PresetStep::Check(PresetCheck { request, preset, marker })
        },
        None => {
            let dir = join(&style, &request.config.core.workspace_root, ".ralph");
            let preset = join(&style, &dir, "autoloop-preset");
            PresetStep::Generate(PresetGeneration { request, preset })
        },
    }
}

fn ready(request: EngineRequest, preset: FilePath, prompt: String) -> (ready: EventReset)
    ensures
        ready@ == reset_step(request, preset@, prompt@),
{
    let style = request.path_style;
    let dir = join(&style, &request.config.core.workspace_root, ".ralph");
    let events_path = join(&style, &dir, "autoloop-events.ndjson");
    let warn_backend = backend_not_forwarded(&request.config);
    EventReset { request, preset, prompt, dir, events_path, warn_backend }
}

fn pick_prompt(request: EngineRequest, preset: FilePath) -> (step: PromptStep)
    ensures
        step@ == prompt_step(request, preset@),
{
    match &request.config.event_loop.prompt {
        Some(inline) => {
            let prompt = inline.clone();
            PromptStep::Ready(ready(request, preset, prompt))
        },
        None => {
            if blank(request.config.event_loop.prompt_file.as_str()) {
                PromptStep::Ready(ready(request, preset, String::new()))
            } else {
                let path = resolve(
                    &request.path_style,
                    &request.config.core.workspace_root,
                    request.config.event_loop.prompt_file.as_str(),
                );
                PromptStep::Read(PromptRead { request, preset, path })
            }
        },
    }
}

impl PresetCheck {
    /// The directory of the configured preset.
    pub fn preset(&self) -> (file: &FilePath)
        ensures
            file@ == self@.preset,
    {
        &self.preset
    }

    /// The file to look for.
    pub fn marker(&self) -> (file: &FilePath)
        ensures
            file@ == self@.marker,
    {
        &self.marker
    }

    /// Go on when it is known whether the marker is a file.
    pub fn checked(self, is_file: bool) -> (step: Result<PromptStep, EngineError>)
        ensures
            match step {
                Ok(prompt) => is_file && prompt@ == prompt_step(self@.request, self@.preset),
                Err(error) => {
                    &&& !is_file
                    &&& error matches EngineError::PresetNotFound { preset }
                    &&& preset@ == self@.preset
                },
            },
    {
        if is_file {
            Ok(pick_prompt(self.request, self.preset))
        } else {
            Err(EngineError::PresetNotFound { preset: self.preset })
        }
    }
}

impl PresetGeneration {
    /// The directory that the preset goes to.
    pub fn preset(&self) -> (file: &FilePath)
        ensures
            file@ == self@.preset,
    {
        &self.preset
    }

    /// Go on when the generator has run. `generated` tells whether it succeeded.
    pub fn generated(self, generated: bool) -> (step: Result<PromptStep, EngineError>)
        ensures
            match step {
                Ok(prompt) => generated && prompt@ == prompt_step(self@.request, self@.preset),
                Err(error) => !generated && error == EngineError::PresetGeneration,
            },
    {
        if generated {
            Ok(pick_prompt(self.request, self.preset))
        } else {
            Err(EngineError::PresetGeneration)
        }
    }
}

impl PromptRead {
    /// The prompt file.
    pub fn path(&self) -> (file: &FilePath)
        ensures
            file@ == self@.path,
    {
        &self.path
    }

    /// Go on with the text of the prompt file; nothing where it could not be read.
    pub fn read(self, text: Option<String>) -> (step: Result<EventReset, EngineError>)
        ensures
            match (text, step) {
                (Some(prompt), Ok(reset)) => reset@ == reset_step(
                    self@.request,
                    self@.preset,
                    prompt@,
                ),
                (None, Err(EngineError::PromptRead { path })) => path@ == self@.path,
                _ => false,
            },
    {
        match text {
            Some(prompt) => Ok(ready(self.request, self.preset, prompt)),
            None => Err(EngineError::PromptRead { path: self.path }),
        }
    }
}

impl EventReset {
    /// The directory to create.
    pub fn dir(&self) -> (file: &FilePath)
        ensures
            file@ == self@.dir,
    {
        &self.dir
    }

    /// The event file to remove.
    pub fn events_path(&self) -> (file: &FilePath)
        ensures
            file@ == self@.events_path,
    {
        &self.events_path
    }

    /// Whether to warn that the configured backend is not forwarded.
    pub fn warns_of_backend(&self) -> (warn: bool)
        ensures
            warn == self@.warn_backend,
    {
        self.warn_backend
    }

    /// Go on when the event file has been cleared, or could not be.
    pub fn reset(self) -> (launch: Launch)
        ensures
            launch@ == launch_step(self@),
    {
        let mode = match run_mode(self.request.rpc, self.request.tui) {
            RunMode::Rpc => LaunchMode::Rpc {
                backend: rpc_backend_label(&self.request.config),
                max_iterations: Some(self.request.config.event_loop.max_iterations),
            },
            RunMode::Tui => LaunchMode::Tui,
            RunMode::Headless => LaunchMode::Headless,
        };
        Launch {
            request: self.request,
            preset: self.preset,
            prompt: self.prompt,
            events_path: self.events_path,
            mode,
        }
    }
}

impl Launch {
    /// The preset to run.
    pub fn preset(&self) -> (file: &FilePath)
        ensures
            file@ == self@.preset,
    {
        &self.preset
    }

    /// The prompt to run it with.
    pub fn prompt(&self) -> (text: &str)
        ensures
            text@ == self@.prompt,
    {
        self.prompt.as_str()
    }

    /// The event file.
    pub fn events_path(&self) -> (file: &FilePath)
        ensures
            file@ == self@.events_path,
    {
        &self.events_path
    }

    /// How to run it.
    pub fn mode(&self) -> (mode: &LaunchMode)
        ensures
            mode@ == self@.mode,
    {
        &self.mode
    }

    /// Go on when the run has ended. In RPC mode nothing is reported on standard output,
    /// so the event file is not read again.
    pub fn ended<C>(self, outcome: Result<AutoloopRunSummary<C>, RunFailure>) -> (step: Result<
        EndStep<C>,
        EngineError,
    >)
        ensures
            match (outcome, step) {
                (Ok(summary), Ok(end)) => end@ == end_step(self@, summary),
                (Err(failure), Err(error)) => error == (EngineError::Run {
                    mode: crate::run::mode_of(self@.request.rpc, self@.request.tui),
                    failure,
                }),
                _ => false,
            },
    {
        match outcome {
            Ok(summary) => {
                if self.request.rpc {
                    Ok(
                        EndStep::Report(
                            Report {
                                request: self.request,
                                prompt: self.prompt,
                                summary,
                                line: None,
                            },
                        ),
                    )
                } else {
                    Ok(
                        EndStep::Read(
                            EventsRead {
                                request: self.request,
                                prompt: self.prompt,
                                events_path: self.events_path,
                                summary,
                            },
                        ),
                    )
                }
            },
            Err(failure) => {
                let mode = run_mode(self.request.rpc, self.request.tui);
                Err(EngineError::Run { mode, failure })
            },
        }
    }
}

/// The line that tells people how a run went.
pub fn summary_line(result: &RunResult) -> (line: String)
    ensures
        line@ == result_line(*result),
{
    let count = decimal_text(result.iterations);
    "autoloop engine: run_id=".to_owned().concat(result.run_id.as_str()).concat(
        " iterations=",
    ).concat(count.as_str()).concat(" stop_reason=").concat(result.stop_reason.as_str())
}

impl<C> EventsRead<C> {
    /// The event file.
    pub fn events_path(&self) -> (file: &FilePath)
        ensures
            file@ == self@.events_path,
    {
        &self.events_path
    }

    /// Go on with the result that the event file holds; nothing where the file could not
    /// be read or holds none.
    pub fn read(self, result: Option<RunResult>) -> (report: Report<C>)
        ensures
            report@ == report_step(self@, result),
    {
        let line = match result {
            Some(found) => Some(summary_line(&found)),
            None => None,
        };
        Report { request: self.request, prompt: self.prompt, summary: self.summary, line }
    }
}

/// The loop's id.
pub fn resolve_loop_id(loop_id: Option<String>, context: &Option<LoopContext>) -> (id: String)
    ensures
        id@ == effective_loop_id(loop_id, *context),
{
    match loop_id {
        Some(id) => id,
        None => match context {
            Some(LoopContext { loop_id: Some(id) }) => id.clone(),
            _ => "primary".to_owned(),
        },
    }
}

impl<C> Report<C> {
    /// The line to print.
    pub fn line(&self) -> (line: Option<&str>)
        ensures
            match line {
                Some(text) => self@.line == Some(text@),
                None => self@.line is None,
            },
    {
        match &self.line {
            Some(text) => Some(text.as_str()),
            None => None,
        }
    }

    /// Go on when the report has been printed. `elapsed` is the time that the run took.
    pub fn complete<D>(self, elapsed: D) -> (done: Completion<C, D>)
        ensures
            done@ == completion(self@, elapsed),
            self@.request.auto_merge_override matches Some(merge) ==> done.auto_merge == merge,
            self@.request.auto_merge_override is None ==> done.auto_merge
                == self@.request.config.features.auto_merge,
    {
        let request = self.request;
        let reason = map_stop_reason(self.summary.stop_reason.as_str());
        let stats = RunStats {
            iterations: self.summary.iterations,
            elapsed,
            cost_usd: self.summary.cost_usd,
        };
        let auto_merge = match request.auto_merge_override {
            Some(merge) => merge,
            None => request.config.features.auto_merge,
        };
        let loop_id = resolve_loop_id(request.loop_id, &request.context);
        Completion {
            reason,
            stats,
            context: request.context,
            scratchpad: request.config.core.scratchpad.path,
            prompt: self.prompt,
            auto_merge,
            loop_id,
            use_colors: request.use_colors,
            banner: !request.rpc,
        }
    }
}

} // verus!
