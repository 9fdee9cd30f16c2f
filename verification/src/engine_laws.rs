//! What holds of every run of the engine, from its request to its completion.

#![allow(unused_imports)]

use vstd::prelude::*;

use crate::engine::AutoloopRunSummary;
use crate::engine::Completion;
use crate::engine::EndStepView;
use crate::engine::EngineError;
use crate::engine::EngineRequest;
use crate::engine::EventResetView;
use crate::engine::EventsReadView;
use crate::engine::LaunchMode;
use crate::engine::LaunchModeView;
use crate::engine::LaunchView;
use crate::engine::LoopContext;
use crate::engine::PresetStepView;
use crate::engine::PromptStepView;
use crate::engine::ReportView;
use crate::engine::RunResult;
use crate::engine::RunStats;
use crate::paths::FilePathView;
use crate::paths::PathStyle;
use crate::rpc::RpcEvent;
use crate::run::RunFailure;
use crate::run::RunMode;
use crate::termination::TerminationReason;

verus! {

/// An inline prompt takes precedence over a prompt file: the file plays no part, and it
/// is not read.
pub proof fn law_inline_prompt_comes_first(
    request: EngineRequest,
    preset: FilePathView,
    prompt: String,
)
    requires
        request.config.event_loop.prompt == Some(prompt),
    ensures
        crate::engine::prompt_step(request, preset) == PromptStepView::Ready(
            crate::engine::reset_step(request, preset, prompt@),
        ),
{
}

/// A preset is generated exactly when none is configured.
pub proof fn law_configured_preset_is_not_generated(request: EngineRequest)
    ensures
        crate::engine::first_step(request) is Generate
            <==> request.config.core.autoloop_preset is None,
{
}

/// On Unix the engine's own files lie in one directory of the workspace, and a generated
/// preset does not collide with the event file.
pub proof fn law_engine_files_share_a_directory(style: PathStyle, workspace: Seq<char>)
    requires
        style.unix(),
    ensures
        ({
            let root = FilePathView::Text(workspace);
            &&& crate::engine::engine_dir(style, root) matches FilePathView::Text(dir)
            &&& crate::engine::generated_preset(style, root) matches FilePathView::Text(preset)
            &&& crate::engine::event_file(style, root) matches FilePathView::Text(events)
            &&& workspace.is_prefix_of(dir)
            &&& dir.is_prefix_of(preset)
            &&& dir.is_prefix_of(events)
            &&& preset != events
        }),
{
    reveal_strlit(".ralph");
    reveal_strlit("autoloop-preset");
    reveal_strlit("autoloop-events.ndjson");
    let root = FilePathView::Text(workspace);
    if let FilePathView::Text(preset) = crate::engine::generated_preset(style, root) {
        if let FilePathView::Text(events) = crate::engine::event_file(style, root) {
            assert(preset.len() != events.len());
        }
    }
}

/// RPC mode comes before the display, and the display before a headless run.
pub proof fn law_rpc_comes_before_the_display(request: EngineRequest)
    ensures
        crate::engine::launch_mode(request) is Rpc <==> request.rpc,
        crate::engine::launch_mode(request) is Tui <==> !request.rpc && request.tui,
        crate::engine::launch_mode(request) is Headless <==> !request.rpc && !request.tui,
{
}

/// The event that opens an RPC stream tells what was asked for: the prompt that is run,
/// the configured limit, and the label of the configured backend.
pub proof fn law_rpc_stream_is_framed_by_the_request<E>(
    request: EngineRequest,
    preset: FilePathView,
    prompt: String,
    backend: String,
    max_iterations: Option<u32>,
    started_at: u64,
)
    requires
        request.rpc,
        crate::engine::launch_mode(request) == (LaunchModeView::Rpc {
            backend: backend@,
            max_iterations,
        }),
    ensures
        ({
            &&& crate::engine::launch_step(
                crate::engine::reset_step(request, preset, prompt@),
            ).prompt == prompt@
            &&& crate::rpc::loop_started::<E>(prompt, max_iterations, backend, started_at)
                matches RpcEvent::LoopStarted {
                prompt: told,
                max_iterations: limit,
                backend: label,
                workspace_root,
                started_at: time,
            }
            &&& told@ == prompt@
            &&& limit == Some(request.config.event_loop.max_iterations)
            &&& label@ == crate::config::backend_label(request.config.cli.backend@)
            &&& workspace_root is None
            &&& time == started_at
        }),
{
}

/// In RPC mode standard output is left to the protocol: the event file is not read for a
/// report, no line is printed, and there is no banner.
pub proof fn law_rpc_keeps_standard_output_clean<C, D>(
    request: EngineRequest,
    preset: FilePathView,
    prompt: Seq<char>,
    summary: AutoloopRunSummary<C>,
    elapsed: D,
)
    requires
        request.rpc,
    ensures
        ({
            let launch = crate::engine::launch_step(
                crate::engine::reset_step(request, preset, prompt),
            );
            &&& crate::engine::end_step(launch, summary) matches EndStepView::Report(report)
            &&& report.line is None
            &&& !crate::engine::completion(report, elapsed).banner
        }),
{
}

/// Outside RPC mode the event file is read, the banner may be printed, and the line on
/// the run's result is printed exactly when the event file told one.
pub proof fn law_people_are_told_the_result<C, D>(
    request: EngineRequest,
    preset: FilePathView,
    prompt: Seq<char>,
    summary: AutoloopRunSummary<C>,
    result: Option<RunResult>,
    elapsed: D,
)
    requires
        !request.rpc,
    ensures
        ({
            let launch = crate::engine::launch_step(
                crate::engine::reset_step(request, preset, prompt),
            );
            &&& crate::engine::end_step(launch, summary) matches EndStepView::Read(read)
            &&& read.events_path == crate::engine::event_file(
                request.path_style,
                request.config.core.workspace_root@,
            )
            &&& crate::engine::report_step(read, result).line is Some <==> result is Some
            &&& crate::engine::completion(
                crate::engine::report_step(read, result),
                elapsed,
            ).banner
        }),
{
}

/// What is reported for an error is the outermost of its contexts. The failure's own text
/// follows exactly when the run had a display or spoke the RPC protocol.
pub proof fn law_error_is_told_from_the_outside_in(error: EngineError)
    ensures
        crate::engine::error_contexts(error).len() >= 1,
        crate::engine::error_contexts(error)[0] == crate::engine::error_text(error),
        match error {
            EngineError::Run { mode, failure } => if mode == RunMode::Headless {
                crate::engine::error_contexts(error) == seq![crate::run::failure_text(failure)]
            } else {
                &&& crate::engine::error_contexts(error).len() == 2
                &&& crate::engine::error_contexts(error)[1] == crate::run::failure_text(failure)
            },
            _ => crate::engine::error_contexts(error).len() == 1,
        },
{
}

/// A given id names the loop whatever the context says; without one the context does; a
/// loop that neither names is the primary one.
pub proof fn law_given_loop_id_comes_first(
    id: String,
    other: String,
    context: Option<LoopContext>,
)
    ensures
        crate::engine::effective_loop_id(Some(id), context) == id@,
        crate::engine::effective_loop_id(None, Some(LoopContext { loop_id: Some(other) }))
            == other@,
        crate::engine::effective_loop_id(None, Some(LoopContext { loop_id: None })) == "primary"@,
        crate::engine::effective_loop_id(None, None) == "primary"@,
{
}

/// A run that reaches its completion is told by its request and by what the outside
/// answered: the same prompt is run and booked, the subprocess's stop reason decides the
/// termination reason, and its figures are passed on unchanged.
pub proof fn law_completion_follows_from_request_and_answers<C, D>(
    request: EngineRequest,
    preset: FilePathView,
    prompt: Seq<char>,
    summary: AutoloopRunSummary<C>,
    result: Option<RunResult>,
    elapsed: D,
)
    ensures
        ({
            let launch = crate::engine::launch_step(
                crate::engine::reset_step(request, preset, prompt),
            );
            let report = match crate::engine::end_step(launch, summary) {
                EndStepView::Read(read) => crate::engine::report_step(read, result),
                EndStepView::Report(silent) => silent,
            };
            let done = crate::engine::completion(report, elapsed);
            &&& launch.request == request
            &&& launch.preset == preset
            &&& launch.prompt == prompt
            &&& launch.events_path == crate::engine::event_file(
                request.path_style,
                request.config.core.workspace_root@,
            )
            &&& done.reason == crate::termination::termination_of(summary.stop_reason@)
            &&& done.stats == (RunStats {
                iterations: summary.iterations,
                elapsed,
                cost_usd: summary.cost_usd,
            })
            &&& done.prompt == prompt
            &&& done.context == request.context
            &&& done.scratchpad == request.config.core.scratchpad.path@
            &&& done.auto_merge == crate::engine::effective_auto_merge(request)
            &&& done.loop_id == crate::engine::effective_loop_id(request.loop_id, request.context)
            &&& done.use_colors == request.use_colors
            &&& done.banner == !request.rpc
        }),
{
}

/// A configured preset is checked where it lies: at the path itself where that is absolute,
/// else at the path below the workspace. The file to look for is `autoloops.toml` below
/// that preset.
pub proof fn law_configured_preset_is_checked_where_it_lies(request: EngineRequest, path: String)
    requires
        request.config.core.autoloop_preset == Some(path),
    ensures
        ({
            let style = request.path_style;
            &&& crate::engine::first_step(request) matches PresetStepView::Check(check)
            &&& check.request == request
            &&& crate::paths::is_absolute_text(style, path@) ==> check.preset
                == FilePathView::Text(path@)
            &&& !crate::paths::is_absolute_text(style, path@) ==> check.preset
                == crate::paths::joined(style, request.config.core.workspace_root@, path@)
            &&& check.marker == crate::paths::joined(style, check.preset, "autoloops.toml"@)
        }),
{
}

/// On Unix a configured preset that starts with `/` is the one that is checked, and any
/// other ends the path that is checked, which starts with the workspace. The file to look
/// for is named below the preset.
pub proof fn law_checked_preset_is_the_configured_one(
    request: EngineRequest,
    workspace: Seq<char>,
    path: String,
)
    requires
        request.path_style.unix(),
        request.config.core.workspace_root@ == FilePathView::Text(workspace),
        request.config.core.autoloop_preset == Some(path),
        path@.len() > 0,
        path@.last() != '/',
    ensures
        ({
            &&& crate::engine::first_step(request) matches PresetStepView::Check(check)
            &&& check.preset matches FilePathView::Text(preset)
            &&& path@[0] == '/' ==> preset == path@
            &&& path@[0] != '/' ==> path@.is_suffix_of(preset) && workspace.is_prefix_of(preset)
            &&& path@[0] != '/' && workspace.len() > 0 && workspace.last() != '/' ==> preset
                == workspace + seq!['/'] + path@
            &&& path@[0] != '/' && (workspace.len() == 0 || workspace.last() == '/') ==> preset
                == workspace + path@
            &&& check.marker == FilePathView::Text(preset + "/autoloops.toml"@)
        }),
{
    reveal_strlit("autoloops.toml");
    reveal_strlit("/autoloops.toml");
    if let PresetStepView::Check(check) = crate::engine::first_step(request) {
        if let FilePathView::Text(preset) = check.preset {
            assert(preset.last() == path@.last());
            assert(preset.push('/') + "autoloops.toml"@ =~= preset + "/autoloops.toml"@);
            assert(workspace.push('/') == workspace + seq!['/']);
        }
    }
}

/// Without a configured preset one is generated in the workspace's `.ralph` directory.
pub proof fn law_preset_is_generated_in_the_workspace(request: EngineRequest)
    requires
        request.config.core.autoloop_preset is None,
    ensures
        ({
            let style = request.path_style;
            &&& crate::engine::first_step(request) matches PresetStepView::Generate(generation)
            &&& generation.request == request
            &&& generation.preset == crate::paths::joined(
                style,
                crate::paths::joined(style, request.config.core.workspace_root@, ".ralph"@),
                "autoloop-preset"@,
            )
        }),
{
}

/// Which preset is checked or generated depends on the configuration alone, not on how the
/// run is driven or named.
pub proof fn law_preset_does_not_depend_on_the_mode(request: EngineRequest, other: EngineRequest)
    requires
        request.config == other.config,
        request.path_style == other.path_style,
    ensures
        match (crate::engine::first_step(request), crate::engine::first_step(other)) {
            (PresetStepView::Check(check), PresetStepView::Check(same)) => {
                &&& check.preset == same.preset
                &&& check.marker == same.marker
            },
            (PresetStepView::Generate(generation), PresetStepView::Generate(same)) =>
                generation.preset == same.preset,
            _ => false,
        },
{
}

/// Without an inline prompt a prompt file whose name is not blank is read, whatever else
/// was asked for: at its own path where that is absolute, else below the workspace.
pub proof fn law_prompt_file_is_read(request: EngineRequest, preset: FilePathView)
    requires
        request.config.event_loop.prompt is None,
        exists|i: int|
            0 <= i < request.config.event_loop.prompt_file@.len()
                && !crate::text::is_white_space(
                #[trigger] request.config.event_loop.prompt_file@[i],
            ),
    ensures
        ({
            let style = request.path_style;
            let file = request.config.event_loop.prompt_file@;
            &&& crate::engine::prompt_step(request, preset) matches PromptStepView::Read(read)
            &&& read.request == request
            &&& read.preset == preset
            &&& crate::paths::is_absolute_text(style, file) ==> read.path == FilePathView::Text(
                file,
            )
            &&& !crate::paths::is_absolute_text(style, file) ==> read.path
                == crate::paths::joined(style, request.config.core.workspace_root@, file)
        }),
{
}

/// No file is read only for an inline prompt, which is then the prompt, or for a blank file
/// name, and then the prompt is empty.
pub proof fn law_prompt_is_known_only_inline_or_blank(
    request: EngineRequest,
    preset: FilePathView,
)
    ensures
        crate::engine::prompt_step(request, preset) matches PromptStepView::Ready(ready) ==> {
            &&& ready.request == request
            &&& ready.preset == preset
            &&& match request.config.event_loop.prompt {
                Some(prompt) => ready.prompt == prompt@,
                None => {
                    &&& ready.prompt.len() == 0
                    &&& forall|i: int|
                        0 <= i < request.config.event_loop.prompt_file@.len()
                            ==> crate::text::is_white_space(
                            #[trigger] request.config.event_loop.prompt_file@[i],
                        )
                },
            }
        },
        request.config.event_loop.prompt is Some ==> crate::engine::prompt_step(
            request,
            preset,
        ) is Ready,
{
}

/// Where the prompt comes from depends on the configuration alone, not on how the run is
/// driven or named, nor on the preset.
pub proof fn law_prompt_does_not_depend_on_the_mode(
    request: EngineRequest,
    preset: FilePathView,
    other: EngineRequest,
    other_preset: FilePathView,
)
    requires
        request.config == other.config,
        request.path_style == other.path_style,
    ensures
        match (
            crate::engine::prompt_step(request, preset),
            crate::engine::prompt_step(other, other_preset),
        ) {
            (PromptStepView::Read(read), PromptStepView::Read(same)) => read.path == same.path,
            (PromptStepView::Ready(ready), PromptStepView::Ready(same)) => ready.prompt
                == same.prompt,
            _ => false,
        },
{
}

/// An inline prompt, an empty one too, is the prompt; else a blank file name means the
/// empty prompt, and any other the file of that name.
pub proof fn law_prompt_source_follows_the_configuration(
    style: PathStyle,
    config: crate::config::RalphConfig,
)
    ensures
        match config.event_loop.prompt {
            Some(prompt) => crate::engine::prompt_source(style, config)
                == crate::engine::PromptSource::Inline(prompt@),
            None => match crate::engine::prompt_source(style, config) {
                crate::engine::PromptSource::Inline(prompt) => prompt.len() == 0
                    && crate::text::trimmed(config.event_loop.prompt_file@).len() == 0,
                crate::engine::PromptSource::File(path) => {
                    let file = config.event_loop.prompt_file@;
                    &&& crate::text::trimmed(file).len() > 0
                    &&& crate::paths::is_absolute_text(style, file) ==> path
                        == FilePathView::Text(file)
                    &&& !crate::paths::is_absolute_text(style, file) ==> path
                        == crate::paths::joined(style, config.core.workspace_root@, file)
                },
            },
        },
{
    crate::text::law_blank_is_trimmed_to_nothing(config.event_loop.prompt_file@);
}

/// Before the launch the event file in the workspace's `.ralph` directory is cleared, and a
/// warning is due exactly for a backend that is neither empty nor `auto`. Preset and prompt
/// are those that were found.
pub proof fn law_event_file_is_cleared_first(
    request: EngineRequest,
    preset: FilePathView,
    prompt: Seq<char>,
)
    ensures
        ({
            let style = request.path_style;
            let ready = crate::engine::reset_step(request, preset, prompt);
            &&& ready.request == request
            &&& ready.preset == preset
            &&& ready.prompt == prompt
            &&& ready.dir == crate::paths::joined(
                style,
                request.config.core.workspace_root@,
                ".ralph"@,
            )
            &&& ready.events_path == crate::paths::joined(
                style,
                ready.dir,
                "autoloop-events.ndjson"@,
            )
            &&& ready.warn_backend <==> request.config.cli.backend@.len() > 0
                && request.config.cli.backend@ != "auto"@
        }),
{
}

/// On Unix the engine's files have these names below the workspace.
pub proof fn law_engine_files_have_their_names(style: PathStyle, workspace: Seq<char>)
    requires
        style.unix(),
        workspace.len() > 0,
        workspace.last() != '/',
    ensures
        ({
            let root = FilePathView::Text(workspace);
            &&& crate::engine::engine_dir(style, root) == FilePathView::Text(
                workspace + "/.ralph"@,
            )
            &&& crate::engine::generated_preset(style, root) == FilePathView::Text(
                workspace + "/.ralph/autoloop-preset"@,
            )
            &&& crate::engine::event_file(style, root) == FilePathView::Text(
                workspace + "/.ralph/autoloop-events.ndjson"@,
            )
            &&& crate::engine::preset_marker(style, root) == FilePathView::Text(
                workspace + "/autoloops.toml"@,
            )
        }),
{
    reveal_strlit(".ralph");
    reveal_strlit("/.ralph");
    reveal_strlit("autoloop-preset");
    reveal_strlit("/.ralph/autoloop-preset");
    reveal_strlit("autoloop-events.ndjson");
    reveal_strlit("/.ralph/autoloop-events.ndjson");
    reveal_strlit("autoloops.toml");
    reveal_strlit("/autoloops.toml");
    let dir = workspace + "/.ralph"@;
    assert(workspace.push('/') + ".ralph"@ =~= dir);
    assert(dir.last() == 'h');
    assert(dir.push('/') + "autoloop-preset"@ =~= workspace + "/.ralph/autoloop-preset"@);
    assert(dir.push('/') + "autoloop-events.ndjson"@ =~= workspace
        + "/.ralph/autoloop-events.ndjson"@);
    assert(workspace.push('/') + "autoloops.toml"@ =~= workspace + "/autoloops.toml"@);
}

/// What is launched is what was made ready, driven as the two switches ask for. In RPC mode
/// the stream is told the configured limit, and the configured backend where it is neither
/// empty nor `auto`, else `autoloop`.
pub proof fn law_what_was_made_ready_is_launched(ready: EventResetView)
    ensures
        ({
            let launch = crate::engine::launch_step(ready);
            let config = ready.request.config;
            &&& launch.request == ready.request
            &&& launch.preset == ready.preset
            &&& launch.prompt == ready.prompt
            &&& launch.events_path == ready.events_path
            &&& ready.request.rpc ==> {
                &&& launch.mode matches LaunchModeView::Rpc { backend, max_iterations }
                &&& max_iterations == Some(config.event_loop.max_iterations)
                &&& config.cli.backend@.len() == 0 || config.cli.backend@ == "auto"@ ==> backend
                    == "autoloop"@
                &&& config.cli.backend@.len() > 0 && config.cli.backend@ != "auto"@ ==> backend
                    == config.cli.backend@
            }
            &&& !ready.request.rpc && ready.request.tui ==> launch.mode == LaunchModeView::Tui
            &&& !ready.request.rpc && !ready.request.tui ==> launch.mode
                == LaunchModeView::Headless
        }),
{
}

/// The preset that was checked or generated is the one that is launched, with the prompt
/// that the configuration or its file gave. `text` is what the prompt file holds.
pub proof fn law_found_preset_and_prompt_are_launched(request: EngineRequest, text: Seq<char>)
    ensures
        ({
            let preset = match crate::engine::first_step(request) {
                PresetStepView::Check(check) => check.preset,
                PresetStepView::Generate(generation) => generation.preset,
            };
            let ready = match crate::engine::prompt_step(request, preset) {
                PromptStepView::Ready(known) => known,
                PromptStepView::Read(read) => crate::engine::reset_step(
                    read.request,
                    read.preset,
                    text,
                ),
            };
            let launch = crate::engine::launch_step(ready);
            &&& launch.request == request
            &&& launch.preset == preset
            &&& match request.config.event_loop.prompt {
                Some(prompt) => launch.prompt == prompt@,
                None => if crate::text::is_blank(request.config.event_loop.prompt_file@) {
                    launch.prompt.len() == 0
                } else {
                    launch.prompt == text
                },
            }
        }),
{
}

/// After a run that ended by itself the event file is read outside RPC mode, and nothing is
/// reported in it. Request, prompt and summary are kept.
pub proof fn law_ended_run_is_passed_on<C>(launch: LaunchView, summary: AutoloopRunSummary<C>)
    ensures
        match crate::engine::end_step(launch, summary) {
            EndStepView::Read(read) => {
                &&& !launch.request.rpc
                &&& read.request == launch.request
                &&& read.prompt == launch.prompt
                &&& read.events_path == launch.events_path
                &&& read.summary == summary
            },
            EndStepView::Report(report) => {
                &&& launch.request.rpc
                &&& report.request == launch.request
                &&& report.prompt == launch.prompt
                &&& report.summary == summary
                &&& report.line is None
            },
        },
{
}

/// The line of a report tells the run's id, the number of its iterations and its stop
/// reason, and there is none where the event file told no result. All else is kept.
pub proof fn law_report_tells_the_result<C>(read: EventsReadView<C>, result: Option<RunResult>)
    ensures
        ({
            let report = crate::engine::report_step(read, result);
            &&& report.request == read.request
            &&& report.prompt == read.prompt
            &&& report.summary == read.summary
            &&& match (result, report.line) {
                (Some(found), Some(line)) => line == "autoloop engine: run_id="@ + found.run_id@
                    + " iterations="@ + crate::text::decimal(found.iterations as nat)
                    + " stop_reason="@ + found.stop_reason@,
                (None, None) => true,
                _ => false,
            }
        }),
{
}

/// An override decides whether the run is merged, whatever else the request says; without
/// one the configuration does.
pub proof fn law_override_decides_on_the_merge<C, D>(report: ReportView<C>, elapsed: D)
    ensures
        ({
            let request = report.request;
            let done = crate::engine::completion(report, elapsed);
            &&& request.auto_merge_override matches Some(merge) ==> done.auto_merge == merge
            &&& request.auto_merge_override is None ==> done.auto_merge
                == request.config.features.auto_merge
        }),
{
}

/// Two runs with the same override and the same configured choice are merged alike, however
/// they differ in all else.
pub proof fn law_merge_depends_on_override_and_choice_alone<C, D>(
    report: ReportView<C>,
    elapsed: D,
    other: ReportView<C>,
    other_elapsed: D,
)
    requires
        report.request.auto_merge_override == other.request.auto_merge_override,
        report.request.config.features.auto_merge == other.request.config.features.auto_merge,
    ensures
        crate::engine::completion(report, elapsed).auto_merge == crate::engine::completion(
            other,
            other_elapsed,
        ).auto_merge,
{
}

/// The bookkeeping gets what the subprocess reported and what the request says: its figures
/// and the reason for its word, the context, the scratchpad, the prompt and the colours. The
/// loop is named by the given id, else by the context's, else it is `primary`. The banner is
/// left out exactly in RPC mode.
pub proof fn law_bookkeeping_gets_the_run<C, D>(report: ReportView<C>, elapsed: D)
    ensures
        ({
            let request = report.request;
            let word = report.summary.stop_reason@;
            let done = crate::engine::completion(report, elapsed);
            &&& done.reason == TerminationReason::CompletionPromise <==> {
                ||| word == "completed"@
                ||| word == "completion_event"@
                ||| word == "completion_promise"@
                ||| word == "verdict_exit"@
            }
            &&& done.reason == crate::termination::termination_of(word)
            &&& done.stats.iterations == report.summary.iterations
            &&& done.stats.elapsed == elapsed
            &&& done.stats.cost_usd == report.summary.cost_usd
            &&& done.context == request.context
            &&& done.scratchpad == request.config.core.scratchpad.path@
            &&& done.prompt == report.prompt
            &&& match request.loop_id {
                Some(id) => done.loop_id == id@,
                None => match request.context {
                    Some(context) => match context.loop_id {
                        Some(id) => done.loop_id == id@,
                        None => done.loop_id == "primary"@,
                    },
                    None => done.loop_id == "primary"@,
                },
            }
            &&& done.use_colors == request.use_colors
            &&& done.banner <==> !request.rpc
        }),
{
    crate::termination::law_each_reason_has_its_words(report.summary.stop_reason@);
}

/// The text of each error. A path is told as it is shown, and a failed run by its mode, or
/// by its failure where it is headless.
pub proof fn law_errors_are_told_by_their_texts(error: EngineError)
    ensures
        match error {
            EngineError::PresetNotFound { preset } => crate::engine::error_text(error)
                == "autoloop preset not found (no autoloops.toml): "@ + crate::paths::shown(
                preset@,
            ),
            EngineError::PresetGeneration => crate::engine::error_text(error)
                == "generating an autoloop preset from the hats topology"@,
            EngineError::PromptRead { path } => crate::engine::error_text(error)
                == "reading prompt file "@ + crate::paths::shown(path@),
            EngineError::Run { mode, failure } => {
                &&& mode == RunMode::Rpc ==> crate::engine::error_text(error)
                    == "autoloop RPC run failed"@
                &&& mode == RunMode::Tui ==> crate::engine::error_text(error)
                    == "autoloop TUI run failed"@
                &&& mode == RunMode::Headless && failure == RunFailure::Run
                    ==> crate::engine::error_text(error) == "autoloop run failed"@
                &&& mode == RunMode::Headless && failure == RunFailure::RunPanicked
                    ==> crate::engine::error_text(error) == "autoloop run task panicked"@
            },
        },
{
}

/// The texts of a list of strings are the strings, one by one.
pub proof fn law_texts_are_the_strings(strings: Seq<String>)
    ensures
        crate::engine::texts(strings).len() == strings.len(),
        forall|i: int|
            0 <= i < strings.len() ==> #[trigger] crate::engine::texts(strings)[i]
                == strings[i]@,
{
}

/// What is said of a completion is said of its fields.
pub proof fn law_completion_is_its_fields<C, D>(done: Completion<C, D>)
    ensures
        done@.reason == done.reason,
        done@.stats == done.stats,
        done@.context == done.context,
        done@.scratchpad == done.scratchpad@,
        done@.prompt == done.prompt@,
        done@.auto_merge == done.auto_merge,
        done@.loop_id == done.loop_id@,
        done@.use_colors == done.use_colors,
        done@.banner == done.banner,
{
}

/// What is said of a mode of running is said of its variant and fields.
pub proof fn law_mode_is_its_fields(mode: LaunchMode)
    ensures
        match (mode, mode@) {
            (
                LaunchMode::Rpc { backend, max_iterations },
                LaunchModeView::Rpc { backend: label, max_iterations: limit },
            ) => label == backend@ && limit == max_iterations,
            (LaunchMode::Tui, LaunchModeView::Tui) => true,
            (LaunchMode::Headless, LaunchModeView::Headless) => true,
            _ => false,
        },
{
}

} // verus!
