//! The handling of actions: how each action changes the application state,
//! and which outside work it asks for.
//!
//! `ActionHandler::handle` takes the state and one action and returns the
//! outside work to perform (`Effect`s). The surrounding program performs it
//! and hands the outcome back as another action, before any other action.

use crate::app::actions::{Action, Effect, ListingReason, NavigationTarget};
use crate::app::file_browser::{
    last_position, sorted_from, visible_listing, DirEntry, FileBrowserState, FileBrowserTarget,
    Navigation,
};
use crate::app::filter_dialog::{next_index, prev_index, FilterDialogState, FilterTab};
use crate::app::shell::{shell_words, split_words};
use crate::app::state::{
    first_job_at, has_job, ids_unique, ids_without, lemma_event_keeps_ids, lemma_new_job_keeps_ids,
    lemma_unfinished_keeps_ids, jobs_after_event, moved_down, moved_up, unfinished_jobs,
    ApplicationState, BuilderField, BuilderState, InspectorState, JobEvent, LogsState, QueueState,
    Screen,
};
use crate::domain::command::{format_for_path, is_new_input, GlobalOptions};
use crate::domain::filter::{AudioFilter, Filter, VideoFilter};
use crate::domain::job::{can_requeue, name_or_unknown, Job, JobConfig, JobId, JobPriority};
use crate::domain::media_info::opt_view;
use crate::domain::{AudioCodec, CommandBuilder, ContainerFormat, EncodingPreset, FFMpegCommand, VideoCodec};
use crate::paths::{
    file_name_of, file_stem_of, parent_of, path_file_stem, path_parent, path_with_extension,
    path_with_file_name, with_extension, with_file_name,
};
use crate::preset::builtin::Preset;
use crate::text::{blank, is_blank, pop_char, push_char, push_str, str_eq, string_of, views};
use vstd::prelude::*;

verus! {

// ---------------------------------------------------------------------------
// What an action does, one spec function per kind of action.
// ---------------------------------------------------------------------------

/// The screen a navigation target shows.
pub open spec fn screen_for(t: NavigationTarget) -> Screen {
    match t {
        NavigationTarget::Dashboard => Screen::Dashboard,
        NavigationTarget::Builder => Screen::Builder,
        NavigationTarget::Queue => Screen::Queue,
        NavigationTarget::Logs => Screen::Logs,
        NavigationTarget::Inspector => Screen::Inspector,
        NavigationTarget::Help => Screen::Help,
    }
}

/// Whether the status bar of `t` shows `msg`.
pub open spec fn status_is(t: ApplicationState, msg: Seq<char>) -> bool {
    t.status_message matches Some(m) && m@ == msg
}

/// Whether `t` is `s` with the status bar showing `msg`.
pub open spec fn only_status(s: ApplicationState, t: ApplicationState, msg: Seq<char>) -> bool {
    &&& t == (ApplicationState { status_message: t.status_message, ..s })
    &&& status_is(t, msg)
}

/// `s` with another builder.
pub open spec fn with_builder(s: ApplicationState, b: BuilderState) -> ApplicationState {
    ApplicationState { builder: b, ..s }
}

/// The file stem of a path, or `output` when it has none.
pub open spec fn stem_or_output(p: Seq<char>) -> Seq<char> {
    match path_file_stem(p) {
        Some(s) => s,
        None => "output"@,
    }
}

/// The output path proposed for an input: beside it, named after its stem
/// with `_output` and the extension of the format.
pub open spec fn derived_output_path(input: Seq<char>, format: ContainerFormat) -> Seq<char> {
    path_with_file_name(input, stem_or_output(input) + "_output."@ + format.spec_extension())
}

/// Choosing `path` as input: it is recorded, an output path is proposed when
/// none was chosen, and the file is to be inspected.
pub open spec fn input_chosen(s: ApplicationState, path: String, t: ApplicationState, fx: Seq<Effect>) -> bool {
    &&& t == with_builder(
        s,
        BuilderState { input_path: Some(path), output_path: t.builder.output_path, ..s.builder },
    )
    &&& match s.builder.output_path {
        Some(o) => t.builder.output_path == Some(o),
        None => t.builder.output_path matches Some(o) && o@ == derived_output_path(
            path@,
            s.builder.format,
        ),
    }
    &&& fx == seq![Effect::ProbeInput(path)]
}

/// Choosing a container format: the output path, if chosen, takes its extension.
pub open spec fn format_chosen(s: ApplicationState, f: ContainerFormat, t: ApplicationState) -> bool {
    &&& t == with_builder(s, BuilderState { format: f, output_path: t.builder.output_path, ..s.builder })
    &&& match s.builder.output_path {
        Some(o) => t.builder.output_path matches Some(o2) && o2@ == path_with_extension(
            o@,
            f.spec_extension(),
        ),
        None => t.builder.output_path is None,
    }
}

/// Whether `t` is `s` with the builder's filters replaced by `video` and `audio`.
pub open spec fn filters_now(
    s: ApplicationState,
    t: ApplicationState,
    video: Seq<VideoFilter>,
    audio: Seq<AudioFilter>,
) -> bool {
    &&& t == with_builder(s, BuilderState { filters: t.builder.filters, ..s.builder })
    &&& t.builder.filters.video() == video
    &&& t.builder.filters.audio() == audio
}

/// Adding a filter to the chain of its kind.
pub open spec fn filter_added(s: ApplicationState, f: Filter, t: ApplicationState) -> bool {
    let v = s.builder.filters.video();
    let a = s.builder.filters.audio();
    match f {
        Filter::Video(vf) => filters_now(s, t, v.push(vf), a),
        Filter::Audio(af) => filters_now(s, t, v, a.push(af)),
    }
}

/// Removing the video filter at `i`, or else the audio filter at `i`.
pub open spec fn filter_removed(s: ApplicationState, i: usize, t: ApplicationState) -> bool {
    let v = s.builder.filters.video();
    let a = s.builder.filters.audio();
    if i < v.len() {
        filters_now(s, t, v.remove(i as int), a)
    } else if i < a.len() {
        filters_now(s, t, v, a.remove(i as int))
    } else {
        filters_now(s, t, v, a)
    }
}

/// Whether `k` is the position of the first preset named `name`.
pub open spec fn first_preset_at(presets: Seq<Preset>, name: Seq<char>, k: int) -> bool {
    &&& 0 <= k < presets.len()
    &&& presets[k].name@ == name
    &&& forall|j: int| 0 <= j < k ==> (#[trigger] presets[j]).name@ != name
}

/// Loading the first preset named `name`, if there is one: its codecs,
/// container and filters, its quality and encoding preset where it has them;
/// the preset index moves on by one.
pub open spec fn preset_loaded(s: ApplicationState, name: Seq<char>, t: ApplicationState) -> bool {
    if exists|k: int| first_preset_at(s.presets@, name, k) {
        let k = choose|k: int| first_preset_at(s.presets@, name, k);
        let p = s.presets@[k];
        &&& t == (ApplicationState {
            builder: BuilderState {
                selected_preset: t.builder.selected_preset,
                video_codec: p.video_codec,
                audio_codec: p.audio_codec,
                format: p.container,
                crf: match p.crf {
                    Some(c) => c,
                    None => s.builder.crf,
                },
                preset: match p.encoding_preset {
                    Some(e) => e,
                    None => s.builder.preset,
                },
                filters: t.builder.filters,
                preset_index: ((s.builder.preset_index + 1) % (s.presets@.len() as int)) as usize,
                ..s.builder
            },
            status_message: t.status_message,
            ..s
        })
        &&& t.builder.selected_preset matches Some(n) && n@ == p.name@
        &&& t.builder.filters.video() == p.filters.video()
        &&& t.builder.filters.audio() == p.filters.audio()
        &&& status_is(t, "Loaded preset: "@ + p.name@)
    } else {
        t == s
    }
}

/// The options every command of the builder starts with.
pub open spec fn default_globals() -> GlobalOptions {
    GlobalOptions { hide_banner: true, overwrite: true, threads: None, hwaccel: None, loglevel: None }
}

/// The words of the raw command typed in the builder; none when its quotes
/// do not match.
pub open spec fn raw_words(b: BuilderState) -> Seq<Seq<char>> {
    match shell_words(b.raw_command@) {
        Some(w) => w,
        None => Seq::empty(),
    }
}

/// Whether `c` is the command the builder makes for `input` and `output`: in
/// raw mode with a raw command, the default output settings and the words of
/// the raw command; else the codecs, format, quality, preset and filters chosen.
pub open spec fn command_from_builder(
    c: FFMpegCommand,
    b: BuilderState,
    input: Seq<char>,
    output: Seq<char>,
) -> bool {
    &&& c.inputs@.len() == 1
    &&& is_new_input(c.inputs@[0], input, None, None)
    &&& c.global_options == default_globals()
    &&& c.output.path@ == output
    &&& c.output.video_bitrate.is_none()
    &&& c.output.audio_bitrate == Some(192u32)
    &&& c.output.output_options@.len() == 0
    &&& if b.raw_command_mode && b.raw_command@.len() > 0 {
        &&& c.output.format == format_for_path(output)
        &&& c.output.video_codec == VideoCodec::H264
        &&& c.output.audio_codec == AudioCodec::Aac
        &&& c.output.crf == Some(23u8)
        &&& c.output.preset == Some(EncodingPreset::Medium)
        &&& c.filters.video().len() == 0
        &&& c.filters.audio().len() == 0
        &&& views(c.raw_args@) == raw_words(b)
    } else {
        &&& c.output.format == b.format
        &&& c.output.video_codec == b.video_codec
        &&& c.output.audio_codec == b.audio_codec
        &&& c.output.crf == Some(b.crf)
        &&& c.output.preset == Some(b.preset)
        &&& c.filters.video() == b.filters.video()
        &&& c.filters.audio() == b.filters.audio()
        &&& c.raw_args@.len() == 0
    }
}

/// Whether `j` is the job the builder makes, queued under `id`, with the
/// duration of the inspected input when it is known.
pub open spec fn built_job(j: Job, id: JobId, b: BuilderState, input: String, output: String) -> bool {
    &&& j.spec_id() == id
    &&& j.spec_config().input_path == input
    &&& j.spec_config().output_path == output
    &&& command_from_builder(j.spec_config().command, b, input@, output@)
    &&& j.spec_config().priority == JobPriority::Normal
    &&& j.spec_config().max_retries == 3
    &&& j.spec_status() is Queued
    &&& j.spec_log().len() == 0
    &&& j.spec_source_duration() == match b.input_info {
        Some(info) => info.format.duration,
        None => None,
    }
}

/// Whether the jobs `after` are `before` with a job put at `k`: in place of
/// the first job of `id` if there was one, else at the end.
pub open spec fn new_job_at(before: Seq<Job>, after: Seq<Job>, id: JobId, k: int) -> bool {
    if has_job(before, id) {
        first_job_at(before, id, k) && after == before.update(k, after[k])
    } else {
        k == before.len() && after == before.push(after[k])
    }
}

/// A built job was added and queued under `id`, shown on the queue screen.
pub open spec fn job_queued(s: ApplicationState, m: ApplicationState, id: JobId) -> bool {
    &&& m == (ApplicationState {
        jobs: m.jobs,
        job_queue: m.job_queue,
        status_message: m.status_message,
        screen: Screen::Queue,
        ..s
    })
    &&& m.job_queue@ == s.job_queue@.push(id)
    &&& status_is(m, "Job queued: "@ + id.spec_short_text())
    &&& exists|k: int| #[trigger]
        new_job_at(s.jobs@, m.jobs@, id, k) && built_job(
            m.jobs@[k],
            id,
            s.builder,
            s.builder.input_path.unwrap(),
            s.builder.output_path.unwrap(),
        )
}

/// Whether the first job of `id` exists and has not reached a terminal state.
pub open spec fn startable(jobs: Seq<Job>, id: JobId) -> bool {
    exists|i: int| #[trigger] first_job_at(jobs, id, i) && !jobs[i].spec_status().spec_is_terminal()
}

/// The queue and the running jobs once waiting jobs have been started, the
/// front of the queue first, while fewer than `max` run. A job that is
/// unknown or already finished leaves the queue without running.
pub open spec fn dispatch(queue: Seq<JobId>, jobs: Seq<Job>, active: Seq<JobId>, max: nat) -> (
    Seq<JobId>,
    Seq<JobId>,
)
    decreases queue.len(),
{
    if active.len() >= max || queue.len() == 0 {
        (queue, active)
    } else if startable(jobs, queue[0]) {
        dispatch(queue.drop_first(), jobs, active.push(queue[0]), max)
    } else {
        dispatch(queue.drop_first(), jobs, active, max)
    }
}

/// The work of running the given jobs.
pub open spec fn spawn_effects(ids: Seq<JobId>) -> Seq<Effect> {
    ids.map_values(|id: JobId| Effect::SpawnJob(id))
}

/// Starting waiting jobs, unless the queue is paused.
pub open spec fn queue_processed(m: ApplicationState, t: ApplicationState, fx: Seq<Effect>) -> bool {
    if m.queue_state.is_paused {
        t == m && fx.len() == 0
    } else {
        let r = dispatch(m.job_queue@, m.jobs@, m.active_jobs@, m.max_concurrent_jobs as nat);
        &&& t == (ApplicationState { job_queue: t.job_queue, active_jobs: t.active_jobs, ..m })
        &&& t.job_queue@ == r.0
        &&& t.active_jobs@ == r.1
        &&& fx == spawn_effects(r.1.skip(m.active_jobs@.len() as int))
    }
}

/// Building a job from the builder: it fails with a message when the input or
/// the output is missing; else the job is queued and waiting jobs are started.
pub open spec fn job_built(s: ApplicationState, t: ApplicationState, fx: Seq<Effect>) -> bool {
    if s.builder.input_path is None {
        only_status(s, t, "Cannot build job: Input path missing"@) && fx.len() == 0
    } else if s.builder.output_path is None {
        only_status(s, t, "Cannot build job: Output path missing"@) && fx.len() == 0
    } else {
        exists|m: ApplicationState, id: JobId| #[trigger] job_queued(s, m, id) && queue_processed(m, t, fx)
    }
}

/// The message about a job: `Job `, its short identifier, and `rest`.
pub open spec fn job_message(id: JobId, rest: Seq<char>) -> Seq<char> {
    "Job "@ + id.spec_short_text() + rest
}

/// A run that ended: the job takes the event, leaves the running jobs, its run
/// is forgotten, the status shows `msg`, and waiting jobs are started.
pub open spec fn run_ended(
    s: ApplicationState,
    id: JobId,
    ev: JobEvent,
    msg: Seq<char>,
    t: ApplicationState,
    fx: Seq<Effect>,
) -> bool {
    exists|m: ApplicationState| #[trigger] queue_processed(m, t, fx.skip(1)) && {
        &&& m == (ApplicationState {
            jobs: m.jobs,
            active_jobs: m.active_jobs,
            status_message: m.status_message,
            ..s
        })
        &&& jobs_after_event(s.jobs@, m.jobs@, id, ev)
        &&& m.active_jobs@ == ids_without(s.active_jobs@, id)
        &&& status_is(m, msg)
        &&& fx.len() >= 1
        &&& fx[0] == Effect::ForgetTask(id)
    }
}

/// Cancelling a job: its run is stopped, it is cancelled and leaves the
/// running jobs and the queue, and waiting jobs are started.
pub open spec fn job_cancelled(s: ApplicationState, id: JobId, t: ApplicationState, fx: Seq<Effect>) -> bool {
    exists|m: ApplicationState| #[trigger] queue_processed(m, t, fx.skip(1)) && {
        &&& m == (ApplicationState {
            jobs: m.jobs,
            active_jobs: m.active_jobs,
            job_queue: m.job_queue,
            status_message: m.status_message,
            ..s
        })
        &&& jobs_after_event(s.jobs@, m.jobs@, id, JobEvent::Cancel)
        &&& m.active_jobs@ == ids_without(s.active_jobs@, id)
        &&& m.job_queue@ == ids_without(s.job_queue@, id)
        &&& status_is(m, job_message(id, " cancelled"@))
        &&& fx.len() >= 1
        &&& fx[0] == Effect::AbortTask(id)
    }
}

/// Whether the first job of `id` exists and can be queued again.
pub open spec fn retry_possible(jobs: Seq<Job>, id: JobId) -> bool {
    exists|k: int| #[trigger] first_job_at(jobs, id, k) && can_requeue(
        jobs[k].spec_status(),
        jobs[k].spec_config().max_retries,
    )
}

/// Retrying a job: when it can be queued again it is, at the back of the
/// queue, and waiting jobs are started; else the status says it cannot.
pub open spec fn job_retried(s: ApplicationState, id: JobId, t: ApplicationState, fx: Seq<Effect>) -> bool {
    if retry_possible(s.jobs@, id) {
        exists|m: ApplicationState| #[trigger] queue_processed(m, t, fx) && {
            &&& m == (ApplicationState {
                jobs: m.jobs,
                job_queue: m.job_queue,
                status_message: m.status_message,
                ..s
            })
            &&& forall|k: int| #[trigger] first_job_at(s.jobs@, id, k) ==> {
                &&& m.jobs@ == s.jobs@.update(k, m.jobs@[k])
                &&& m.jobs@[k].spec_status() is Queued
                &&& m.jobs@[k].same_but_status(s.jobs@[k])
            }
            &&& m.job_queue@ == s.job_queue@.push(id)
            &&& status_is(m, job_message(id, " requeued for retry"@))
        }
    } else {
        &&& t == (ApplicationState { jobs: t.jobs, status_message: t.status_message, ..s })
        &&& t.jobs@ == s.jobs@
        &&& status_is(t, "Cannot retry job "@ + id.spec_short_text())
        &&& fx.len() == 0
    }
}

/// Whether `t` is `s` with its file browser changed as `step` says, if one is open.
pub open spec fn browser_step(
    s: ApplicationState,
    t: ApplicationState,
    step: spec_fn(FileBrowserState, FileBrowserState) -> bool,
) -> bool {
    &&& t == (ApplicationState { file_browser: t.file_browser, ..s })
    &&& match s.file_browser {
        Some(b) => t.file_browser matches Some(b2) && step(b, b2),
        None => t.file_browser is None,
    }
}

/// The selection after moving it up: one entry up, stopping at the first.
pub open spec fn selection_up(b: FileBrowserState) -> usize {
    if b.selected_index == 0 { 0 } else { (b.selected_index - 1) as usize }
}

/// The selection after moving it down: one entry down, stopping at the last shown.
pub open spec fn selection_down(b: FileBrowserState) -> usize {
    if b.selected_index + 1 <= last_position(b.filtered_indices@.len()) {
        (b.selected_index + 1) as usize
    } else {
        last_position(b.filtered_indices@.len()) as usize
    }
}

/// A selection kept within the `n` entries shown.
pub open spec fn clamped(sel: usize, n: nat) -> usize {
    if sel <= last_position(n) { sel } else { last_position(n) as usize }
}

/// Whether `b2` is `b` with the filter text now `text`, applied again, and the
/// selection kept within the entries shown.
pub open spec fn filtered_by(b: FileBrowserState, b2: FileBrowserState, text: Seq<char>) -> bool {
    &&& b2 == (FileBrowserState {
        filter_text: b2.filter_text,
        filtered_indices: b2.filtered_indices,
        selected_index: b2.selected_index,
        ..b
    })
    &&& b2.filter_text@ == text
    &&& b2.filter_consistent()
    &&& b2.selected_index == clamped(b.selected_index, b2.filtered_indices@.len())
}

/// `s` without its last character, if it has one.
pub open spec fn without_last(s: Seq<char>) -> Seq<char> {
    if s.len() == 0 { s } else { s.drop_last() }
}

/// Whether `b2` is `b` with the output file name now `name`.
pub open spec fn named(b: FileBrowserState, b2: FileBrowserState, name: Seq<char>) -> bool {
    b2 == (FileBrowserState { output_filename: b2.output_filename, ..b }) && b2.output_filename@ == name
}

/// Moving the browser to the parent directory, if there is one, with the
/// filter cleared; its listing is then to be read.
pub open spec fn went_up(b: FileBrowserState, b2: FileBrowserState, fx: Seq<Effect>, reason: ListingReason) -> bool {
    match path_parent(b.current_dir@) {
        Some(p) => {
            &&& b2 == (FileBrowserState { current_dir: b2.current_dir, filter_text: b2.filter_text, ..b })
            &&& b2.current_dir@ == p
            &&& b2.filter_text@.len() == 0
            &&& fx == seq![Effect::ReadDirectory(b2.current_dir, reason)]
        },
        None => b2 == b && fx.len() == 0,
    }
}

/// Moving the open browser, if any, to the parent directory.
pub open spec fn browser_went_up(s: ApplicationState, t: ApplicationState, fx: Seq<Effect>, reason: ListingReason) -> bool {
    &&& t == (ApplicationState { file_browser: t.file_browser, ..s })
    &&& match s.file_browser {
        Some(b) => t.file_browser matches Some(b2) && went_up(b, b2, fx, reason),
        None => t.file_browser is None && fx.len() == 0,
    }
}

/// Erasing in the filter of the open browser: with an empty filter, the
/// browser moves to the parent directory instead.
pub open spec fn filter_erased(s: ApplicationState, t: ApplicationState, fx: Seq<Effect>) -> bool {
    match s.file_browser {
        Some(b) => if b.filter_text@.len() == 0 {
            browser_went_up(s, t, fx, ListingReason::FilterBackspace)
        } else {
            browser_step(s, t, |b: FileBrowserState, b2: FileBrowserState| filtered_by(b, b2, b.filter_text@.drop_last()))
                && fx.len() == 0
        },
        None => t == s && fx.len() == 0,
    }
}

/// Confirming in the open browser: a highlighted directory is entered and its
/// listing is then to be read; else the highlighted file (input) or the typed
/// path (output) is chosen and the browser closes: an input is then recorded
/// as by `input_chosen`, an output is recorded with a message.
pub open spec fn browser_confirmed(s: ApplicationState, t: ApplicationState, fx: Seq<Effect>) -> bool {
    match s.file_browser {
        None => t == s && fx.len() == 0,
        Some(b) => {
            let shown = b.shown_at(b.selected_index as int);
            if shown matches Some(e) && e.is_dir {
                &&& t == (ApplicationState { file_browser: t.file_browser, ..s })
                &&& t.file_browser matches Some(b2) && b.entered(b2, shown.unwrap().path)
                &&& fx == seq![Effect::ReadDirectory(shown.unwrap().path, ListingReason::Confirm)]
            } else {
                match b.target {
                    FileBrowserTarget::Input => match shown {
                        Some(e) => input_chosen(ApplicationState { file_browser: None, ..s }, e.path, t, fx),
                        None => t == s && fx.len() == 0,
                    },
                    FileBrowserTarget::Output => match b.spec_output_full_path() {
                        Some(p) => {
                            &&& t == (ApplicationState {
                                file_browser: None,
                                builder: BuilderState { output_path: t.builder.output_path, ..s.builder },
                                status_message: t.status_message,
                                ..s
                            })
                            &&& t.builder.output_path matches Some(o) && o@ == p
                            &&& status_is(t, "Output set: "@ + name_or_unknown(p))
                            &&& fx.len() == 0
                        },
                        None => t == s && fx.len() == 0,
                    },
                }
            }
        },
    }
}

/// Whether `b2` is `b` showing a freshly read listing: hidden entries left
/// out, directories first then names in order, the first entry selected.
pub open spec fn listing_installed(b: FileBrowserState, b2: FileBrowserState, listing: Seq<DirEntry>) -> bool {
    &&& b2 == (FileBrowserState {
        entries: b2.entries,
        filtered_indices: b2.filtered_indices,
        selected_index: 0,
        ..b
    })
    &&& sorted_from(b2.entries@, visible_listing(listing))
    &&& b2.filter_consistent()
}

/// A listing read for the open browser is shown; a failure to read it is
/// reported, except after erasing in an empty filter.
pub open spec fn listing_read(
    s: ApplicationState,
    reason: ListingReason,
    result: Result<Vec<DirEntry>, String>,
    t: ApplicationState,
) -> bool {
    match result {
        Ok(listing) => browser_step(s, t, |b: FileBrowserState, b2: FileBrowserState| listing_installed(b, b2, listing@)),
        Err(e) => match reason {
            ListingReason::NavigateUp => only_status(s, t, "Navigation error: "@ + e@),
            ListingReason::Confirm => only_status(s, t, "Error: "@ + e@),
            ListingReason::FilterBackspace => t == s,
        },
    }
}

/// The parent directory of an optional path.
pub open spec fn parent_of_opt(p: Option<String>) -> Option<Seq<char>> {
    match p {
        Some(x) => path_parent(x@),
        None => None,
    }
}

/// Where a file browser opens: beside the input, or for an output beside the
/// output or else beside the input; in the working directory when neither.
pub open spec fn browser_start(b: BuilderState, target: FileBrowserTarget) -> Option<Seq<char>> {
    match target {
        FileBrowserTarget::Input => parent_of_opt(b.input_path),
        FileBrowserTarget::Output => match parent_of_opt(b.output_path) {
            Some(d) => Some(d),
            None => parent_of_opt(b.input_path),
        },
    }
}

/// The file name proposed when a browser opens for the output: the output's
/// stem, else the input's stem with `_output`, else `output`.
pub open spec fn default_output_name(b: BuilderState) -> Seq<char> {
    match b.output_path {
        Some(o) => stem_or_output(o@),
        None => match b.input_path {
            Some(i) => stem_or_output(i@) + "_output"@,
            None => "output"@,
        },
    }
}

/// A browser opened on a directory is shown, for an output with a proposed
/// name; a failure to open it is reported.
pub open spec fn browser_opened(
    s: ApplicationState,
    target: FileBrowserTarget,
    result: Result<(String, Vec<DirEntry>), String>,
    t: ApplicationState,
) -> bool {
    match result {
        Ok((dir, listing)) => {
            &&& t == (ApplicationState { file_browser: t.file_browser, ..s })
            &&& t.file_browser matches Some(b) && {
                &&& b.current_dir == dir
                &&& b.target == target
                &&& b.output_extension@ == s.builder.format.spec_extension()
                &&& b.filter_text@.len() == 0
                &&& b.selected_index == 0
                &&& sorted_from(b.entries@, visible_listing(listing@))
                &&& b.filter_consistent()
                &&& b.output_filename@ == if target == FileBrowserTarget::Output {
                    default_output_name(s.builder)
                } else {
                    Seq::empty()
                }
            }
        },
        Err(e) => only_status(s, t, "Cannot open directory: "@ + e@),
    }
}

/// Whether `t` is `s` with its filter dialog changed as `step` says, if one is open.
pub open spec fn dialog_step(
    s: ApplicationState,
    t: ApplicationState,
    step: spec_fn(FilterDialogState, FilterDialogState) -> bool,
) -> bool {
    &&& t == (ApplicationState { filter_dialog: t.filter_dialog, ..s })
    &&& match s.filter_dialog {
        Some(d) => t.filter_dialog matches Some(d2) && step(d, d2),
        None => t.filter_dialog is None,
    }
}

/// The number of active filters of the builder.
pub open spec fn active_filter_count(s: ApplicationState) -> usize {
    (s.builder.filters.video().len() + s.builder.filters.audio().len()) as usize
}

/// The selection after moving to the next of `n` items, wrapping around.
pub open spec fn wrapped_next(d: FilterDialogState, n: nat) -> usize {
    if d.editing_custom { d.selected_index } else { next_index(d.selected_index as int, n as int) as usize }
}

/// The selection after moving to the previous of `n` items, wrapping around.
pub open spec fn wrapped_prev(d: FilterDialogState, n: nat) -> usize {
    if d.editing_custom { d.selected_index } else { prev_index(d.selected_index as int, n as int) as usize }
}

/// Confirming a custom filter entry: the first time it starts the editing of
/// its text; once text is typed the filter is added and the text cleared.
pub open spec fn custom_confirmed(
    s: ApplicationState,
    d: FilterDialogState,
    t: ApplicationState,
    video: bool,
) -> bool {
    let is_blank_text = is_blank(d.custom_text@);
    if !d.editing_custom && is_blank_text {
        &&& t == (ApplicationState {
            filter_dialog: Some(FilterDialogState { editing_custom: true, ..d }),
            status_message: t.status_message,
            ..s
        })
        &&& status_is(t, if video {
            "Type custom video filter and press Enter"@
        } else {
            "Type custom audio filter and press Enter"@
        })
    } else if !is_blank_text {
        let v = s.builder.filters.video();
        let a = s.builder.filters.audio();
        &&& t == (ApplicationState {
            builder: BuilderState { filters: t.builder.filters, ..s.builder },
            filter_dialog: t.filter_dialog,
            status_message: t.status_message,
            ..s
        })
        &&& t.filter_dialog matches Some(d2) && d2 == (FilterDialogState {
            custom_text: d2.custom_text,
            editing_custom: false,
            ..d
        }) && d2.custom_text@.len() == 0
        &&& if video {
            &&& t.builder.filters.video() == v.push(VideoFilter::Custom { filter_string: d.custom_text })
            &&& t.builder.filters.audio() == a
            &&& status_is(t, "Added custom video filter: "@ + d.custom_text@)
        } else {
            &&& t.builder.filters.video() == v
            &&& t.builder.filters.audio() == a.push(AudioFilter::Custom { filter_string: d.custom_text })
            &&& status_is(t, "Added custom audio filter: "@ + d.custom_text@)
        }
    } else {
        t == s
    }
}

/// Removing the active filter at the dialog's selection (video filters
/// first, then audio ones), and keeping the selection within what is left.
pub open spec fn dialog_removed(s: ApplicationState, t: ApplicationState) -> bool {
    match s.filter_dialog {
        None => t == s,
        Some(d) => {
            let idx = d.selected_index;
            let v = s.builder.filters.video();
            let a = s.builder.filters.audio();
            let removed_video = idx < v.len();
            let removed_audio = !removed_video && idx - v.len() < a.len();
            let v2 = if removed_video { v.remove(idx as int) } else { v };
            let a2 = if removed_audio { a.remove(idx - v.len()) } else { a };
            let count = v2.len() + a2.len();
            &&& t == (ApplicationState {
                builder: BuilderState { filters: t.builder.filters, ..s.builder },
                filter_dialog: Some(FilterDialogState {
                    selected_index: (if count == 0 { 0 } else if idx >= count { count - 1 } else { idx as int }) as usize,
                    ..d
                }),
                status_message: t.status_message,
                ..s
            })
            &&& t.builder.filters.video() == v2
            &&& t.builder.filters.audio() == a2
            &&& if removed_video {
                status_is(t, "Removed video filter"@)
            } else if removed_audio {
                status_is(t, "Removed audio filter"@)
            } else {
                t.status_message == s.status_message
            }
        },
    }
}

/// Confirming in the filter dialog: on a preset tab the highlighted preset is
/// added (a custom one goes through `custom_confirmed`); on the tab of active
/// filters the highlighted one is removed.
pub open spec fn dialog_confirmed(s: ApplicationState, t: ApplicationState) -> bool {
    match s.filter_dialog {
        None => t == s,
        Some(d) => match d.current_tab {
            FilterTab::Video => if d.selected_index < d.video_presets@.len() {
                let item = d.video_presets@[d.selected_index as int];
                match item.filter {
                    Filter::Video(VideoFilter::Custom { .. }) => custom_confirmed(s, d, t, true),
                    Filter::Video(vf) => {
                        &&& t == (ApplicationState {
                            builder: BuilderState { filters: t.builder.filters, ..s.builder },
                            status_message: t.status_message,
                            ..s
                        })
                        &&& t.builder.filters.video() == s.builder.filters.video().push(vf)
                        &&& t.builder.filters.audio() == s.builder.filters.audio()
                        &&& status_is(t, "Added video filter: "@ + item.label@)
                    },
                    _ => t == s,
                }
            } else {
                t == s
            },
            FilterTab::Audio => if d.selected_index < d.audio_presets@.len() {
                let item = d.audio_presets@[d.selected_index as int];
                match item.filter {
                    Filter::Audio(AudioFilter::Custom { .. }) => custom_confirmed(s, d, t, false),
                    Filter::Audio(af) => {
                        &&& t == (ApplicationState {
                            builder: BuilderState { filters: t.builder.filters, ..s.builder },
                            status_message: t.status_message,
                            ..s
                        })
                        &&& t.builder.filters.video() == s.builder.filters.video()
                        &&& t.builder.filters.audio() == s.builder.filters.audio().push(af)
                        &&& status_is(t, "Added audio filter: "@ + item.label@)
                    },
                    _ => t == s,
                }
            } else {
                t == s
            },
            FilterTab::Active => dialog_removed(s, t),
        },
    }
}

/// Whether the first preset at `k` named `name` is the only one that is first.
proof fn lemma_first_preset_unique(presets: Seq<Preset>, name: Seq<char>, k: int)
    requires
        first_preset_at(presets, name, k),
    ensures
        forall|j: int| first_preset_at(presets, name, j) ==> j == k,
{
    assert forall|j: int| first_preset_at(presets, name, j) implies j == k by {
        if j < k {
            assert(presets[j].name@ != name);
        } else if j > k {
            assert(presets[k].name@ != name);
        }
    }
}

/// Whether the first job at `i` with identifier `id` is the only one that is first.
proof fn lemma_first_job_unique(jobs: Seq<Job>, id: JobId, i: int)
    requires
        first_job_at(jobs, id, i),
    ensures
        forall|j: int| #[trigger] first_job_at(jobs, id, j) ==> j == i,
        has_job(jobs, id),
{
    assert forall|j: int| #[trigger] first_job_at(jobs, id, j) implies j == i by {
        if j < i {
            assert(jobs[j].spec_id() != id);
        } else if j > i {
            assert(jobs[i].spec_id() != id);
        }
    }
}

/// Whether `handle` may be given this state: the counters it steps fit their
/// type, as the program's own arithmetic requires.
pub open spec fn handle_ready(s: ApplicationState) -> bool {
    &&& s.builder.preset_index < usize::MAX
    &&& s.logs_state.scroll_position < usize::MAX
    &&& s.builder.filters.video().len() + s.builder.filters.audio().len() <= usize::MAX
    &&& s.filter_dialog matches Some(d) ==> d.selected_index + d.item_count(active_filter_count(s)) < usize::MAX
}


/// What handling `action` in state `s` leaves, `t`, and asks for, `fx`.
pub open spec fn handled(s: ApplicationState, action: Action, t: ApplicationState, fx: Seq<Effect>) -> bool {
    let b = s.builder;
    let logs = s.logs_state;
    match action {
        Action::Navigate(target) => t == (ApplicationState { screen: screen_for(target), ..s }) && fx.len() == 0,
        Action::NavigateBack => t == (ApplicationState { screen: Screen::Dashboard, ..s }) && fx.len() == 0,
        Action::Quit => t == (ApplicationState { running: false, ..s }) && fx.len() == 0,
        Action::Tick => t == s && fx.len() == 0,
        Action::ConfirmSelection => t == s && fx.len() == 0,
        Action::CancelSelection => t == s && fx.len() == 0,
        Action::SetInput(path) => input_chosen(s, path, t, fx),
        Action::SetOutput(path) => t == with_builder(s, BuilderState { output_path: Some(path), ..b }) && fx.len() == 0,
        Action::SetVideoCodec(c) => t == with_builder(s, BuilderState { video_codec: c, ..b }) && fx.len() == 0,
        Action::SetAudioCodec(c) => t == with_builder(s, BuilderState { audio_codec: c, ..b }) && fx.len() == 0,
        Action::SetFormat(f) => format_chosen(s, f, t) && fx.len() == 0,
        Action::SetCrf(c) => t == with_builder(s, BuilderState { crf: c, ..b }) && fx.len() == 0,
        Action::SetPreset(p) => t == with_builder(s, BuilderState { preset: p, ..b }) && fx.len() == 0,
        Action::AddFilter(f) => filter_added(s, f, t) && fx.len() == 0,
        Action::RemoveFilter(i) => filter_removed(s, i, t) && fx.len() == 0,
        Action::LoadPreset(name) => preset_loaded(s, name@, t) && fx.len() == 0,
        Action::BuildJob => job_built(s, t, fx),
        Action::ToggleRawCommandMode => t == with_builder(
            s,
            BuilderState { raw_command_mode: !b.raw_command_mode, ..b },
        ) && fx.len() == 0,
        Action::SetRawCommand(c) => t == with_builder(s, BuilderState { raw_command: c, ..b }) && fx.len() == 0,
        Action::RawCommandAppend(c) => t == with_builder(s, BuilderState { raw_command: t.builder.raw_command, ..b })
            && t.builder.raw_command@ == b.raw_command@.push(c) && fx.len() == 0,
        Action::RawCommandBackspace => t == with_builder(s, BuilderState { raw_command: t.builder.raw_command, ..b })
            && t.builder.raw_command@ == without_last(b.raw_command@) && fx.len() == 0,
        Action::OpenFileBrowser(target) => t == s && fx.len() == 1 && (fx[0] matches Effect::OpenBrowser {
            start,
            target: tt,
        } && tt == target && opt_view(start) == browser_start(b, target)),
        Action::FileBrowserNavigateUp => browser_went_up(s, t, fx, ListingReason::NavigateUp),
        Action::FileBrowserConfirm => browser_confirmed(s, t, fx),
        Action::FileBrowserCancel => t == (ApplicationState { file_browser: None, ..s }) && fx.len() == 0,
        Action::FileBrowserSelectPrev => browser_step(s, t, |b: FileBrowserState, b2: FileBrowserState|
            b2 == (FileBrowserState { selected_index: selection_up(b), ..b })) && fx.len() == 0,
        Action::FileBrowserSelectNext => browser_step(s, t, |b: FileBrowserState, b2: FileBrowserState|
            b2 == (FileBrowserState { selected_index: selection_down(b), ..b })) && fx.len() == 0,
        Action::FileBrowserFilterAppend(c) => browser_step(s, t, |b: FileBrowserState, b2: FileBrowserState|
            filtered_by(b, b2, b.filter_text@.push(c))) && fx.len() == 0,
        Action::FileBrowserFilterBackspace => filter_erased(s, t, fx),
        Action::FileBrowserFilenameAppend(c) => browser_step(s, t, |b: FileBrowserState, b2: FileBrowserState|
            named(b, b2, b.output_filename@.push(c))) && fx.len() == 0,
        Action::FileBrowserFilenameBackspace => browser_step(s, t, |b: FileBrowserState, b2: FileBrowserState|
            named(b, b2, without_last(b.output_filename@))) && fx.len() == 0,
        Action::OpenFilterDialog => t == (ApplicationState { filter_dialog: t.filter_dialog, ..s })
            && (t.filter_dialog matches Some(d) && d.is_fresh()) && fx.len() == 0,
        Action::CloseFilterDialog => t == (ApplicationState { filter_dialog: None, ..s }) && fx.len() == 0,
        Action::FilterDialogNextTab => dialog_step(s, t, |d: FilterDialogState, d2: FilterDialogState|
            d2 == (FilterDialogState {
                current_tab: d.current_tab.spec_next(),
                selected_index: 0,
                editing_custom: false,
                ..d
            })) && fx.len() == 0,
        Action::FilterDialogPrevTab => dialog_step(s, t, |d: FilterDialogState, d2: FilterDialogState|
            d2 == (FilterDialogState {
                current_tab: d.current_tab.spec_prev(),
                selected_index: 0,
                editing_custom: false,
                ..d
            })) && fx.len() == 0,
        Action::FilterDialogSelectNext => dialog_step(s, t, |d: FilterDialogState, d2: FilterDialogState|
            d2 == (FilterDialogState {
                selected_index: wrapped_next(d, d.item_count(active_filter_count(s))),
                ..d
            })) && fx.len() == 0,
        Action::FilterDialogSelectPrev => dialog_step(s, t, |d: FilterDialogState, d2: FilterDialogState|
            d2 == (FilterDialogState {
                selected_index: wrapped_prev(d, d.item_count(active_filter_count(s))),
                ..d
            })) && fx.len() == 0,
        Action::FilterDialogConfirm => dialog_confirmed(s, t) && fx.len() == 0,
        Action::FilterDialogRemoveSelected => dialog_removed(s, t) && fx.len() == 0,
        Action::FilterDialogClearAll => t == (ApplicationState {
            builder: BuilderState { filters: t.builder.filters, ..b },
            status_message: t.status_message,
            ..s
        }) && t.builder.filters.video().len() == 0 && t.builder.filters.audio().len() == 0
            && status_is(t, "Cleared all filters"@) && fx.len() == 0,
        Action::FilterDialogCustomAppend(c) => dialog_step(s, t, |d: FilterDialogState, d2: FilterDialogState|
            d2 == (FilterDialogState { custom_text: d2.custom_text, ..d }) && d2.custom_text@ == if d.editing_custom {
                d.custom_text@.push(c)
            } else {
                d.custom_text@
            }) && fx.len() == 0,
        Action::FilterDialogCustomBackspace => dialog_step(s, t, |d: FilterDialogState, d2: FilterDialogState|
            d2 == (FilterDialogState { custom_text: d2.custom_text, ..d }) && d2.custom_text@ == if d.editing_custom {
                without_last(d.custom_text@)
            } else {
                d.custom_text@
            }) && fx.len() == 0,
        Action::StartQueue => status_is(t, "Queue started"@) && queue_processed(
            ApplicationState {
                queue_state: QueueState { is_paused: false, ..s.queue_state },
                status_message: t.status_message,
                ..s
            },
            t,
            fx,
        ),
        Action::PauseQueue => t == (ApplicationState {
            queue_state: QueueState { is_paused: true, ..s.queue_state },
            status_message: t.status_message,
            ..s
        }) && status_is(t, "Queue paused"@) && fx.len() == 0,
        Action::ClearCompleted => t == (ApplicationState { jobs: t.jobs, status_message: t.status_message, ..s })
            && t.jobs@ == unfinished_jobs(s.jobs@) && status_is(t, "Cleared completed jobs"@) && fx.len() == 0,
        Action::CancelJob(id) => job_cancelled(s, id, t, fx),
        Action::RetryJob(id) => job_retried(s, id, t, fx),
        Action::SelectJob(id) => t == (ApplicationState {
            logs_state: LogsState { selected_job: Some(id), ..logs },
            ..s
        }) && fx.len() == 0,
        Action::MoveJobUp(id) => t == (ApplicationState { job_queue: t.job_queue, ..s })
            && t.job_queue@ == moved_up(s.job_queue@, id) && fx.len() == 0,
        Action::MoveJobDown(id) => t == (ApplicationState { job_queue: t.job_queue, ..s })
            && t.job_queue@ == moved_down(s.job_queue@, id) && fx.len() == 0,
        Action::ToggleRawLogs => t == (ApplicationState {
            logs_state: LogsState { show_raw_output: !logs.show_raw_output, ..logs },
            ..s
        }) && fx.len() == 0,
        Action::ToggleAutoScroll => t == (ApplicationState {
            logs_state: LogsState { auto_scroll: !logs.auto_scroll, ..logs },
            ..s
        }) && fx.len() == 0,
        Action::ScrollUp => t == (ApplicationState {
            logs_state: LogsState {
                scroll_position: if logs.scroll_position == 0 { 0 } else { (logs.scroll_position - 1) as usize },
                ..logs
            },
            ..s
        }) && fx.len() == 0,
        Action::ScrollDown => t == (ApplicationState {
            logs_state: LogsState { scroll_position: (logs.scroll_position + 1) as usize, ..logs },
            ..s
        }) && fx.len() == 0,
        Action::ScrollToTop => t == (ApplicationState {
            logs_state: LogsState { scroll_position: 0, ..logs },
            ..s
        }) && fx.len() == 0,
        Action::ScrollToBottom => t == (ApplicationState {
            logs_state: LogsState { auto_scroll: true, ..logs },
            ..s
        }) && fx.len() == 0,
        Action::InspectFile(path) => t == (ApplicationState {
            inspector: InspectorState {
                loading: true,
                current_path: Some(path),
                error: None,
                ..s.inspector
            },
            screen: Screen::Inspector,
            ..s
        }) && fx == seq![Effect::Inspect(path)],
        Action::JobStarted(id) => t == (ApplicationState { jobs: t.jobs, ..s })
            && jobs_after_event(s.jobs@, t.jobs@, id, JobEvent::Start) && fx.len() == 0,
        Action::JobProgress(id, p) => t == (ApplicationState { jobs: t.jobs, ..s })
            && jobs_after_event(s.jobs@, t.jobs@, id, JobEvent::Progress(p)) && fx.len() == 0,
        Action::JobLogLine(id, line) => t == (ApplicationState { jobs: t.jobs, ..s })
            && jobs_after_event(s.jobs@, t.jobs@, id, JobEvent::Log(line)) && fx.len() == 0,
        Action::JobCompleted(id, size) => run_ended(
            s,
            id,
            JobEvent::Complete(size),
            job_message(id, " completed successfully"@),
            t,
            fx,
        ),
        Action::JobFailed(id, err) => run_ended(
            s,
            id,
            JobEvent::Fail(err),
            job_message(id, " failed: "@ + err@),
            t,
            fx,
        ),
        Action::NextField => t == with_builder(s, BuilderState {
            current_field: b.current_field.spec_next(),
            ..b
        }) && fx.len() == 0,
        Action::PrevField => t == with_builder(s, BuilderState {
            current_field: b.current_field.spec_prev(),
            ..b
        }) && fx.len() == 0,
        Action::ShowStatus(msg) => t == (ApplicationState { status_message: Some(msg), ..s }) && fx.len() == 0,
        Action::ClearStatus => t == (ApplicationState { status_message: None, ..s }) && fx.len() == 0,
        Action::BrowserOpened(target, result) => browser_opened(s, target, result, t) && fx.len() == 0,
        Action::DirectoryRead(reason, result) => listing_read(s, reason, result, t) && fx.len() == 0,
        Action::InputProbed(path, result) => fx.len() == 0 && match result {
            Ok(info) => t == (ApplicationState {
                builder: BuilderState { input_info: Some(info), ..b },
                status_message: t.status_message,
                ..s
            }) && status_is(t, "Loaded input: "@ + name_or_unknown(path@)),
            Err(e) => only_status(s, t, "Input file set (probe failed: "@ + e@ + ")"@),
        },
        Action::FileInspected(result) => fx.len() == 0 && match result {
            Ok(info) => t == (ApplicationState {
                inspector: InspectorState { media_info: Some(info), loading: false, ..s.inspector },
                status_message: t.status_message,
                ..s
            }) && status_is(t, "File inspected successfully"@),
            Err(e) => t == (ApplicationState {
                inspector: InspectorState { error: Some(e), loading: false, ..s.inspector },
                status_message: t.status_message,
                ..s
            }) && status_is(t, "Inspection failed"@),
        },
    }
}


/// Handles actions.
pub struct ActionHandler;

/// The concatenation of two texts.
fn message(a: &str, b: &str) -> (res: String)
    ensures
        res@ == a@ + b@,
{
    let mut s = string_of(a);
    push_str(&mut s, b);
    s
}

/// The message about a job.
fn job_text(id: JobId, rest: &str) -> (res: String)
    ensures
        res@ == job_message(id, rest@),
{
    let mut s = string_of("Job ");
    let short = id.short_text();
    push_str(&mut s, short.as_str());
    push_str(&mut s, rest);
    s
}

/// The file name of a path, or `unknown`.
fn name_text(path: &str) -> (res: String)
    ensures
        res@ == name_or_unknown(path@),
{
    match file_name_of(path) {
        Some(n) => n,
        None => string_of("unknown"),
    }
}

/// The file stem of a path, or `output`.
fn stem_text(path: &str) -> (res: String)
    ensures
        res@ == stem_or_output(path@),
{
    match file_stem_of(path) {
        Some(n) => n,
        None => string_of("output"),
    }
}

/// Returns the position of the first preset named `name`.
fn preset_position(presets: &Vec<Preset>, name: &str) -> (res: Option<usize>)
    ensures
        res matches Some(k) ==> first_preset_at(presets@, name@, k as int),
        res is None ==> forall|k: int| !first_preset_at(presets@, name@, k),
{
    let mut k: usize = 0;
    while k < presets.len()
        invariant
            k <= presets@.len(),
            forall|j: int| 0 <= j < k ==> (#[trigger] presets@[j]).name@ != name@,
        decreases presets@.len() - k,
    {
        if str_eq(presets[k].name.as_str(), name) {
            return Some(k);
        }
        k = k + 1;
    }
    proof {
        assert forall|j: int| !first_preset_at(presets@, name@, j) by {
            if first_preset_at(presets@, name@, j) {
                assert(presets@[j].name@ == name@);
            }
        }
    }
    None
}

impl ActionHandler {
    /// Chooses `path` as input: an output path is proposed beside it when none
    /// was chosen, and the file is to be inspected.
    fn set_input(state: &mut ApplicationState, path: String) -> (fx: Vec<Effect>)
        ensures
            input_chosen(*old(state), path, *final(state), fx@),
    {
        if state.builder.output_path.is_none() {
            let mut name = stem_text(path.as_str());
            push_str(&mut name, "_output.");
            push_str(&mut name, state.builder.format.extension());
            let out = with_file_name(path.as_str(), name.as_str());
            state.builder.output_path = Some(out);
        }
        let probe = path.clone();
        state.builder.input_path = Some(path);
        let mut fx: Vec<Effect> = Vec::new();
        fx.push(Effect::ProbeInput(probe));
        fx
    }

    /// Chooses a container format; the chosen output path takes its extension.
    fn set_format(state: &mut ApplicationState, format: ContainerFormat)
        ensures
            format_chosen(*old(state), format, *final(state)),
    {
        state.builder.format = format;
        let updated = match &state.builder.output_path {
            Some(o) => Some(with_extension(o.as_str(), format.extension())),
            None => None,
        };
        state.builder.output_path = updated;
    }

    /// Removes the video filter at `index`, or else the audio filter there.
    fn remove_filter(state: &mut ApplicationState, index: usize)
        ensures
            filter_removed(*old(state), index, *final(state)),
    {
        if state.builder.filters.remove_video_filter(index).is_none() {
            let _ = state.builder.filters.remove_audio_filter(index);
        }
    }

    /// Loads the first preset named `name`, if there is one.
    fn load_preset(state: &mut ApplicationState, name: String)
        requires
            old(state).builder.preset_index < usize::MAX,
        ensures
            preset_loaded(*old(state), name@, *final(state)),
    {
        match preset_position(&state.presets, name.as_str()) {
            Some(k) => {
                proof {
                    lemma_first_preset_unique(state.presets@, name@, k as int);
                }
                let count = state.presets.len();
                let pname = state.presets[k].name.clone();
                let video_codec = state.presets[k].video_codec;
                let audio_codec = state.presets[k].audio_codec;
                let container = state.presets[k].container;
                let crf = state.presets[k].crf;
                let encoding_preset = state.presets[k].encoding_preset;
                let filters = state.presets[k].filters.clone();
                state.builder.selected_preset = Some(pname.clone());
                state.builder.video_codec = video_codec;
                state.builder.audio_codec = audio_codec;
                state.builder.format = container;
                match crf {
                    Some(c) => state.builder.crf = c,
                    None => {},
                }
                match encoding_preset {
                    Some(p) => state.builder.preset = p,
                    None => {},
                }
                state.builder.filters = filters;
                state.builder.preset_index = (state.builder.preset_index + 1) % count;
                state.status_message = Some(message("Loaded preset: ", pname.as_str()));
            },
            None => {},
        }
    }

    /// The command the builder makes for `input` and `output`.
    fn make_command(b: &BuilderState, input: String, output: String) -> (res: Result<FFMpegCommand, crate::domain::CommandBuildError>)
        ensures
            res matches Ok(c) && command_from_builder(c, *b, input@, output@),
    {
        if b.raw_command_mode && b.raw_command.as_str().unicode_len() > 0 {
            let mut builder = CommandBuilder::new().input(input).output(output);
            let ghost base = builder;
            let mut words = match split_words(b.raw_command.as_str()) {
                Some(w) => w,
                None => Vec::new(),
            };
            let ghost all = words@;
            let ghost mut n: int = 0;
            assert(views(all.take(0)) =~= views(builder.raw_args@));
            while words.len() > 0
                invariant
                    0 <= n <= all.len(),
                    words@ == all.skip(n),
                    views(builder.raw_args@) == views(all.take(n)),
                    builder.inputs == base.inputs,
                    builder.output == base.output,
                    builder.global_options == base.global_options,
                    builder.filters == base.filters,
                decreases words@.len(),
            {
                let w = words.remove(0);
                assert(w == all[n]);
                let ghost before = builder.raw_args@;
                builder = builder.raw_arg(w);
                assert(all.take(n + 1) =~= all.take(n).push(w));
                assert(views(builder.raw_args@) =~= views(before).push(w@));
                assert(views(all.take(n + 1)) =~= views(all.take(n)).push(w@));
                proof {
                    n = n + 1;
                }
                assert(words@ =~= all.skip(n));
            }
            assert(all.take(n) =~= all);
            let r = builder.build();
            assert(r matches Ok(c) && c.inputs@.len() == 1);
            assert(r matches Ok(c) && c.global_options == default_globals());
            assert(r matches Ok(c) && views(c.raw_args@) == raw_words(*b));
            r
        } else {
            let r = CommandBuilder::new()
                .input(input)
                .output(output)
                .video_codec(b.video_codec)
                .audio_codec(b.audio_codec)
                .format(b.format)
                .crf(b.crf)
                .preset(b.preset)
                .filters(b.filters.clone())
                .build();
            assert(r matches Ok(c) && c.inputs@.len() == 1);
            assert(r matches Ok(c) && c.output.format == b.format);
            r
        }
    }

    /// Starts waiting jobs, the front of the queue first, while fewer than the
    /// allowed number run; nothing while the queue is paused. Jobs that are
    /// unknown or already finished leave the queue without running.
    pub fn process_queue(state: &mut ApplicationState) -> (fx: Vec<Effect>)
        ensures
            queue_processed(*old(state), *final(state), fx@),
    {
        let mut fx: Vec<Effect> = Vec::new();
        if state.queue_state.is_paused {
            return fx;
        }
        let ghost m = *state;
        let ghost max = m.max_concurrent_jobs as nat;
        let ghost target = dispatch(m.job_queue@, m.jobs@, m.active_jobs@, max);
        assert(m.active_jobs@.skip(m.active_jobs@.len() as int) =~= Seq::<JobId>::empty());
        assert(fx@ =~= spawn_effects(m.active_jobs@.skip(m.active_jobs@.len() as int)));
        while state.active_jobs.len() < state.max_concurrent_jobs && state.job_queue.len() > 0
            invariant
                *state == (ApplicationState { job_queue: state.job_queue, active_jobs: state.active_jobs, ..m }),
                max == m.max_concurrent_jobs as nat,
                dispatch(state.job_queue@, m.jobs@, state.active_jobs@, max) == target,
                m.active_jobs@.len() <= state.active_jobs@.len(),
                state.active_jobs@.take(m.active_jobs@.len() as int) == m.active_jobs@,
                fx@ == spawn_effects(state.active_jobs@.skip(m.active_jobs@.len() as int)),
            decreases state.job_queue@.len(),
        {
            let ghost q = state.job_queue@;
            let ghost a = state.active_jobs@;
            let id = state.job_queue.remove(0);
            assert(state.job_queue@ =~= q.drop_first());
            let start = match state.job_position(id) {
                Some(i) => {
                    proof {
                        lemma_first_job_unique(m.jobs@, id, i as int);
                    }
                    !state.jobs[i].status().is_terminal()
                },
                None => {
                    proof {
                        assert forall|i: int| !#[trigger] first_job_at(m.jobs@, id, i) by {
                            if first_job_at(m.jobs@, id, i) {
                                assert(m.jobs@[i].spec_id() == id);
                            }
                        }
                    }
                    false
                },
            };
            assert(start == startable(m.jobs@, id));
            if start {
                state.active_jobs.push(id);
                fx.push(Effect::SpawnJob(id));
                assert(state.active_jobs@.take(m.active_jobs@.len() as int) =~= m.active_jobs@);
                assert(state.active_jobs@.skip(m.active_jobs@.len() as int) =~= a.skip(
                    m.active_jobs@.len() as int,
                ).push(id));
                assert(fx@ =~= spawn_effects(state.active_jobs@.skip(m.active_jobs@.len() as int)));
            }
        }
        fx
    }

    /// Builds a job from the builder and queues it, then starts waiting jobs;
    /// a missing input or output is reported instead.
    fn build_job(state: &mut ApplicationState) -> (fx: Vec<Effect>)
        ensures
            job_built(*old(state), *final(state), fx@),
    {
        let input = match &state.builder.input_path {
            Some(p) => p.clone(),
            None => {
                state.status_message = Some(string_of("Cannot build job: Input path missing"));
                return Vec::new();
            },
        };
        let output = match &state.builder.output_path {
            Some(p) => p.clone(),
            None => {
                state.status_message = Some(string_of("Cannot build job: Output path missing"));
                return Vec::new();
            },
        };
        let ghost s = *state;
        match Self::make_command(&state.builder, input.clone(), output.clone()) {
            Ok(command) => {
                let mut config = JobConfig::new(input, output, command);
                let duration = match &state.builder.input_info {
                    Some(info) => info.duration_seconds(),
                    None => None,
                };
                if duration.is_some() {
                    config = config.with_priority(JobPriority::Normal);
                }
                let ghost c0 = config;
                let id = state.add_job(config);
                let ghost after_add = *state;
                match duration {
                    Some(d) => state.apply_job_event(id, JobEvent::SetDuration(d)),
                    None => {},
                }
                let mut msg = string_of("Job queued: ");
                let short = id.short_text();
                push_str(&mut msg, short.as_str());
                state.status_message = Some(msg);
                state.screen = Screen::Queue;
                let ghost m = *state;
                proof {
                    let k: int = if has_job(s.jobs@, id) {
                        choose|k: int| first_job_at(s.jobs@, id, k)
                    } else {
                        s.jobs@.len() as int
                    };
                    if has_job(s.jobs@, id) {
                        let w = choose|k: int| 0 <= k < s.jobs@.len() && (#[trigger] s.jobs@[k]).spec_id() == id;
                        assert(exists|k: int| first_job_at(s.jobs@, id, k)) by {
                            first_job_exists(s.jobs@, id, w);
                        }
                        lemma_first_job_unique(s.jobs@, id, k);
                        lemma_first_job_unique(after_add.jobs@, id, k);
                    } else {
                        assert(first_job_at(after_add.jobs@, id, k)) by {
                            assert forall|j: int| 0 <= j < k implies (#[trigger] after_add.jobs@[j]).spec_id() != id by {
                                assert(after_add.jobs@[j] == s.jobs@[j]);
                            }
                        }
                        lemma_first_job_unique(after_add.jobs@, id, k);
                    }
                    if has_job(s.jobs@, id) {
                        assert(m.jobs@ =~= s.jobs@.update(k, m.jobs@[k]));
                    } else {
                        assert(m.jobs@ =~= s.jobs@.push(m.jobs@[k]));
                    }
                    assert(new_job_at(s.jobs@, m.jobs@, id, k));
                    assert(built_job(m.jobs@[k], id, s.builder, s.builder.input_path.unwrap(), s.builder.output_path.unwrap()));
                    assert(job_queued(s, m, id));
                }
                let fx = Self::process_queue(state);
                fx
            },
            Err(e) => {
                state.status_message = Some(message("Error building command: ", e.message().as_str()));
                Vec::new()
            },
        }
    }
}

/// A job with identifier `id` at `w` means there is a first one.
proof fn first_job_exists(jobs: Seq<Job>, id: JobId, w: int)
    requires
        0 <= w < jobs.len(),
        jobs[w].spec_id() == id,
    ensures
        exists|k: int| first_job_at(jobs, id, k),
    decreases w,
{
    if forall|j: int| 0 <= j < w ==> (#[trigger] jobs[j]).spec_id() != id {
        assert(first_job_at(jobs, id, w));
    } else {
        let j = choose|j: int| 0 <= j < w && (#[trigger] jobs[j]).spec_id() != id == false;
        first_job_exists(jobs, id, j);
    }
}


impl ActionHandler {
    /// Cancels a job: its run is to be stopped, it is cancelled and leaves the
    /// running jobs and the queue; then waiting jobs are started.
    fn cancel_job(state: &mut ApplicationState, id: JobId) -> (fx: Vec<Effect>)
        ensures
            job_cancelled(*old(state), id, *final(state), fx@),
    {
        let mut fx: Vec<Effect> = Vec::new();
        fx.push(Effect::AbortTask(id));
        state.apply_job_event(id, JobEvent::Cancel);
        state.remove_active(id);
        state.remove_queued(id);
        state.status_message = Some(job_text(id, " cancelled"));
        let ghost m = *state;
        let mut more = Self::process_queue(state);
        let ghost started = more@;
        fx.append(&mut more);
        assert(fx@.skip(1) =~= started);
        assert(queue_processed(m, *state, fx@.skip(1)));
        fx
    }

    /// Retries a job: when it can be queued again it is, and waiting jobs are
    /// started; else the status says it cannot.
    fn retry_job(state: &mut ApplicationState, id: JobId) -> (fx: Vec<Effect>)
        ensures
            job_retried(*old(state), id, *final(state), fx@),
    {
        let ghost s = *state;
        let requeued = state.requeue_job(id);
        proof {
            if has_job(s.jobs@, id) {
                let w = choose|k: int| 0 <= k < s.jobs@.len() && (#[trigger] s.jobs@[k]).spec_id() == id;
                first_job_exists(s.jobs@, id, w);
                let k = choose|k: int| first_job_at(s.jobs@, id, k);
                lemma_first_job_unique(s.jobs@, id, k);
                assert(requeued == retry_possible(s.jobs@, id));
            } else {
                assert(!retry_possible(s.jobs@, id)) by {
                    if retry_possible(s.jobs@, id) {
                        let k = choose|k: int| #[trigger] first_job_at(s.jobs@, id, k) && can_requeue(
                            s.jobs@[k].spec_status(),
                            s.jobs@[k].spec_config().max_retries,
                        );
                        assert(s.jobs@[k].spec_id() == id);
                    }
                }
            }
        }
        if requeued {
            state.job_queue.push(id);
            state.status_message = Some(job_text(id, " requeued for retry"));
            let ghost m = *state;
            let fx = Self::process_queue(state);
            proof {
                assert(m == (ApplicationState {
                    jobs: m.jobs,
                    job_queue: m.job_queue,
                    status_message: m.status_message,
                    ..s
                }));
                assert(m.job_queue@ == s.job_queue@.push(id));
                assert(status_is(m, job_message(id, " requeued for retry"@)));
                assert(queue_processed(m, *state, fx@));
            }
            fx
        } else {
            proof {
                if has_job(s.jobs@, id) {
                    let w = choose|k: int| 0 <= k < s.jobs@.len() && (#[trigger] s.jobs@[k]).spec_id() == id;
                    first_job_exists(s.jobs@, id, w);
                    let k = choose|k: int| first_job_at(s.jobs@, id, k);
                    assert(state.jobs@ =~= s.jobs@);
                }
            }
            let mut msg = string_of("Cannot retry job ");
            let short = id.short_text();
            push_str(&mut msg, short.as_str());
            state.status_message = Some(msg);
            Vec::new()
        }
    }

    /// Ends the run of a job: the job takes the event, leaves the running
    /// jobs, its run is to be forgotten, the status shows `msg`; then waiting
    /// jobs are started.
    fn end_run(state: &mut ApplicationState, id: JobId, ev: JobEvent, msg: String) -> (fx: Vec<Effect>)
        ensures
            run_ended(*old(state), id, ev, msg@, *final(state), fx@),
    {
        let mut fx: Vec<Effect> = Vec::new();
        fx.push(Effect::ForgetTask(id));
        state.apply_job_event(id, ev);
        state.remove_active(id);
        state.status_message = Some(msg);
        let ghost m = *state;
        let mut more = Self::process_queue(state);
        let ghost started = more@;
        fx.append(&mut more);
        assert(fx@.skip(1) =~= started);
        assert(queue_processed(m, *state, fx@.skip(1)));
        fx
    }

    /// Moves the open browser, if any, to the parent directory.
    fn browser_up(state: &mut ApplicationState, reason: ListingReason) -> (fx: Vec<Effect>)
        ensures
            browser_went_up(*old(state), *final(state), fx@, reason),
    {
        let mut fx: Vec<Effect> = Vec::new();
        match &mut state.file_browser {
            Some(b) => {
                if b.navigate_up() {
                    fx.push(Effect::ReadDirectory(b.current_dir.clone(), reason));
                }
            },
            None => {},
        }
        fx
    }

    /// Erases in the filter of the open browser, or moves it up when the
    /// filter is empty.
    fn browser_erase(state: &mut ApplicationState) -> (fx: Vec<Effect>)
        ensures
            filter_erased(*old(state), *final(state), fx@),
    {
        let empty = match &state.file_browser {
            Some(b) => b.filter_text.as_str().unicode_len() == 0,
            None => return Vec::new(),
        };
        if empty {
            Self::browser_up(state, ListingReason::FilterBackspace)
        } else {
            match &mut state.file_browser {
                Some(b) => b.filter_pop(),
                None => {},
            }
            Vec::new()
        }
    }

    /// Confirms in the open browser.
    fn browser_confirm(state: &mut ApplicationState) -> (fx: Vec<Effect>)
        ensures
            browser_confirmed(*old(state), *final(state), fx@),
    {
        let ghost s = *state;
        let (nav, target) = match &mut state.file_browser {
            Some(b) => {
                let target = b.target;
                let nav = match target {
                    FileBrowserTarget::Input => b.confirm_selected(),
                    FileBrowserTarget::Output => b.confirm_output(),
                };
                (nav, target)
            },
            None => return Vec::new(),
        };
        match nav {
            Navigation::Selected(path) => {
                state.file_browser = None;
                match target {
                    FileBrowserTarget::Input => Self::set_input(state, path),
                    FileBrowserTarget::Output => {
                        let name = name_text(path.as_str());
                        state.builder.output_path = Some(path);
                        state.status_message = Some(message("Output set: ", name.as_str()));
                        Vec::new()
                    },
                }
            },
            Navigation::Entered => {
                let mut fx: Vec<Effect> = Vec::new();
                match &state.file_browser {
                    Some(b) => fx.push(Effect::ReadDirectory(b.current_dir.clone(), ListingReason::Confirm)),
                    None => {},
                }
                fx
            },
            Navigation::Stay => Vec::new(),
        }
    }

    /// Shows a freshly read listing in the open browser, or reports a failure
    /// to read it.
    fn listing_arrived(state: &mut ApplicationState, reason: ListingReason, result: Result<Vec<DirEntry>, String>)
        ensures
            listing_read(*old(state), reason, result, *final(state)),
    {
        match result {
            Ok(listing) => match &mut state.file_browser {
                Some(b) => b.set_listing(listing),
                None => {},
            },
            Err(e) => match reason {
                ListingReason::NavigateUp => {
                    state.status_message = Some(message("Navigation error: ", e.as_str()));
                },
                ListingReason::Confirm => {
                    state.status_message = Some(message("Error: ", e.as_str()));
                },
                ListingReason::FilterBackspace => {},
            },
        }
    }

    /// The file name proposed when a browser opens for the output.
    fn default_name(b: &BuilderState) -> (res: String)
        ensures
            res@ == default_output_name(*b),
    {
        match &b.output_path {
            Some(o) => stem_text(o.as_str()),
            None => match &b.input_path {
                Some(i) => {
                    let mut s = stem_text(i.as_str());
                    push_str(&mut s, "_output");
                    s
                },
                None => string_of("output"),
            },
        }
    }

    /// Shows the browser opened on a directory, or reports the failure.
    fn browser_arrived(
        state: &mut ApplicationState,
        target: FileBrowserTarget,
        result: Result<(String, Vec<DirEntry>), String>,
    )
        ensures
            browser_opened(*old(state), target, result, *final(state)),
    {
        match result {
            Ok((dir, listing)) => {
                let mut browser = FileBrowserState::with_listing(
                    dir,
                    target,
                    state.builder.format.extension(),
                    listing,
                );
                match target {
                    FileBrowserTarget::Output => {
                        browser.output_filename = Self::default_name(&state.builder);
                    },
                    FileBrowserTarget::Input => {},
                }
                state.file_browser = Some(browser);
                assert(browser.current_dir == dir);
                assert(browser.target == target);
                assert(browser.filter_consistent());
                assert(sorted_from(browser.entries@, visible_listing(listing@)));
                assert(browser.output_filename@ == if target == FileBrowserTarget::Output {
                    default_output_name(old(state).builder)
                } else {
                    Seq::<char>::empty()
                });
                assert(browser.output_extension@ == old(state).builder.format.spec_extension());
                assert(*state == (ApplicationState { file_browser: state.file_browser, ..*old(state) }));
            },
            Err(e) => {
                state.status_message = Some(message("Cannot open directory: ", e.as_str()));
            },
        }
    }

    /// Asks for a file browser for `target`, opened beside the chosen files.
    fn open_browser(state: &ApplicationState, target: FileBrowserTarget) -> (fx: Vec<Effect>)
        ensures
            fx@.len() == 1,
            fx@[0] matches Effect::OpenBrowser { start, target: tt } && tt == target && opt_view(start)
                == browser_start(state.builder, target),
    {
        let from_input = match &state.builder.input_path {
            Some(p) => parent_of(p.as_str()),
            None => None,
        };
        let start = match target {
            FileBrowserTarget::Input => from_input,
            FileBrowserTarget::Output => {
                let from_output = match &state.builder.output_path {
                    Some(p) => parent_of(p.as_str()),
                    None => None,
                };
                match from_output {
                    Some(d) => Some(d),
                    None => from_input,
                }
            },
        };
        let mut fx: Vec<Effect> = Vec::new();
        fx.push(Effect::OpenBrowser { start, target });
        fx
    }
}


impl ActionHandler {
    /// Removes the active filter at the dialog's selection and keeps the
    /// selection within what is left.
    fn dialog_remove(state: &mut ApplicationState)
        requires
            old(state).builder.filters.video().len() + old(state).builder.filters.audio().len() <= usize::MAX,
        ensures
            dialog_removed(*old(state), *final(state)),
    {
        let idx = match &state.filter_dialog {
            Some(d) => d.selected_index,
            None => return,
        };
        let vlen = state.builder.filters.video_filters().len();
        if state.builder.filters.remove_video_filter(idx).is_some() {
            state.status_message = Some(string_of("Removed video filter"));
        } else if idx >= vlen {
            if state.builder.filters.remove_audio_filter(idx - vlen).is_some() {
                state.status_message = Some(string_of("Removed audio filter"));
            }
        }
        let count = state.builder.filters.video_filters().len() + state.builder.filters.audio_filters().len();
        match &mut state.filter_dialog {
            Some(d) => {
                if count == 0 {
                    d.selected_index = 0;
                } else if d.selected_index >= count {
                    d.selected_index = count - 1;
                }
            },
            None => {},
        }
    }

    /// Confirms a custom filter entry of the dialog: starts editing its text,
    /// or adds the typed filter.
    fn dialog_custom(state: &mut ApplicationState, video: bool)
        requires
            old(state).filter_dialog is Some,
        ensures
            custom_confirmed(*old(state), old(state).filter_dialog.unwrap(), *final(state), video),
    {
        let (editing, text) = match &state.filter_dialog {
            Some(d) => (d.editing_custom, d.custom_text.clone()),
            None => return,
        };
        let is_blank_text = blank(text.as_str());
        if !editing && is_blank_text {
            match &mut state.filter_dialog {
                Some(d) => d.editing_custom = true,
                None => {},
            }
            state.status_message = Some(
                string_of(
                    if video {
                        "Type custom video filter and press Enter"
                    } else {
                        "Type custom audio filter and press Enter"
                    },
                ),
            );
            return;
        }
        if !is_blank_text {
            if video {
                state.builder.filters.add_video_filter(VideoFilter::Custom { filter_string: text.clone() });
            } else {
                state.builder.filters.add_audio_filter(AudioFilter::Custom { filter_string: text.clone() });
            }
            match &mut state.filter_dialog {
                Some(d) => {
                    d.custom_text = String::new();
                    d.editing_custom = false;
                },
                None => {},
            }
            state.status_message = Some(
                message(
                    if video {
                        "Added custom video filter: "
                    } else {
                        "Added custom audio filter: "
                    },
                    text.as_str(),
                ),
            );
        }
    }

    /// Confirms in the filter dialog.
    fn dialog_confirm(state: &mut ApplicationState)
        requires
            old(state).builder.filters.video().len() + old(state).builder.filters.audio().len() <= usize::MAX,
        ensures
            dialog_confirmed(*old(state), *final(state)),
    {
        let tab = match &state.filter_dialog {
            Some(d) => d.current_tab,
            None => return,
        };
        match tab {
            FilterTab::Video => {
                let chosen = match &state.filter_dialog {
                    Some(d) => if d.selected_index < d.video_presets.len() {
                        let item = &d.video_presets[d.selected_index];
                        Some((item.filter.clone(), item.label))
                    } else {
                        None
                    },
                    None => None,
                };
                match chosen {
                    Some((Filter::Video(VideoFilter::Custom { .. }), _)) => Self::dialog_custom(state, true),
                    Some((Filter::Video(vf), label)) => {
                        state.builder.filters.add_video_filter(vf);
                        state.status_message = Some(message("Added video filter: ", label));
                    },
                    _ => {},
                }
            },
            FilterTab::Audio => {
                let chosen = match &state.filter_dialog {
                    Some(d) => if d.selected_index < d.audio_presets.len() {
                        let item = &d.audio_presets[d.selected_index];
                        Some((item.filter.clone(), item.label))
                    } else {
                        None
                    },
                    None => None,
                };
                match chosen {
                    Some((Filter::Audio(AudioFilter::Custom { .. }), _)) => Self::dialog_custom(state, false),
                    Some((Filter::Audio(af), label)) => {
                        state.builder.filters.add_audio_filter(af);
                        state.status_message = Some(message("Added audio filter: ", label));
                    },
                    _ => {},
                }
            },
            FilterTab::Active => Self::dialog_remove(state),
        }
    }
}


impl ActionHandler {
    /// Returns whether `handle` may be given this state.
    pub fn can_handle(state: &ApplicationState) -> (res: bool)
        ensures
            res == handle_ready(*state),
    {
        let nv = state.builder.filters.video_filters().len();
        let na = state.builder.filters.audio_filters().len();
        if state.builder.preset_index == usize::MAX || state.logs_state.scroll_position == usize::MAX {
            return false;
        }
        if nv > usize::MAX - na {
            return false;
        }
        match &state.filter_dialog {
            Some(d) => {
                let n = d.tab_item_count(nv + na);
                d.selected_index < usize::MAX - n
            },
            None => true,
        }
    }

    /// Handles one action: changes the state as `handled` says and returns the
    /// outside work it asks for.
    #[verifier::rlimit(60)]
    pub fn handle(state: &mut ApplicationState, action: Action) -> (fx: Vec<Effect>)
        requires
            handle_ready(*old(state)),
        ensures
            handled(*old(state), action, *final(state), fx@),
    {
        let mut fx: Vec<Effect> = Vec::new();
        match action {
            Action::Navigate(target) => {
                state.screen = match target {
                    NavigationTarget::Dashboard => Screen::Dashboard,
                    NavigationTarget::Builder => Screen::Builder,
                    NavigationTarget::Queue => Screen::Queue,
                    NavigationTarget::Logs => Screen::Logs,
                    NavigationTarget::Inspector => Screen::Inspector,
                    NavigationTarget::Help => Screen::Help,
                };
            },
            Action::NavigateBack => state.screen = Screen::Dashboard,
            Action::Quit => state.quit(),
            Action::Tick => {},
            Action::ConfirmSelection => {},
            Action::CancelSelection => {},
            Action::SetInput(path) => fx = Self::set_input(state, path),
            Action::SetOutput(path) => state.builder.output_path = Some(path),
            Action::SetVideoCodec(c) => state.builder.video_codec = c,
            Action::SetAudioCodec(c) => state.builder.audio_codec = c,
            Action::SetFormat(f) => Self::set_format(state, f),
            Action::SetCrf(c) => state.builder.crf = c,
            Action::SetPreset(p) => state.builder.preset = p,
            Action::AddFilter(f) => match f {
                Filter::Video(vf) => state.builder.filters.add_video_filter(vf),
                Filter::Audio(af) => state.builder.filters.add_audio_filter(af),
            },
            Action::RemoveFilter(i) => Self::remove_filter(state, i),
            Action::LoadPreset(name) => Self::load_preset(state, name),
            Action::BuildJob => fx = Self::build_job(state),
            Action::ToggleRawCommandMode => state.builder.raw_command_mode = !state.builder.raw_command_mode,
            Action::SetRawCommand(c) => state.builder.raw_command = c,
            Action::RawCommandAppend(c) => push_char(&mut state.builder.raw_command, c),
            Action::RawCommandBackspace => {
                let _ = pop_char(&mut state.builder.raw_command);
            },
            Action::OpenFileBrowser(target) => fx = Self::open_browser(state, target),
            Action::FileBrowserNavigateUp => fx = Self::browser_up(state, ListingReason::NavigateUp),
            Action::FileBrowserConfirm => fx = Self::browser_confirm(state),
            Action::FileBrowserCancel => state.file_browser = None,
            Action::FileBrowserSelectPrev => match &mut state.file_browser {
                Some(b) => b.select_prev(),
                None => {},
            },
            Action::FileBrowserSelectNext => match &mut state.file_browser {
                Some(b) => b.select_next(),
                None => {},
            },
            Action::FileBrowserFilterAppend(c) => match &mut state.file_browser {
                Some(b) => b.filter_push(c),
                None => {},
            },
            Action::FileBrowserFilterBackspace => fx = Self::browser_erase(state),
            Action::FileBrowserFilenameAppend(c) => match &mut state.file_browser {
                Some(b) => b.filename_push(c),
                None => {},
            },
            Action::FileBrowserFilenameBackspace => match &mut state.file_browser {
                Some(b) => b.filename_pop(),
                None => {},
            },
            Action::OpenFilterDialog => state.filter_dialog = Some(FilterDialogState::new()),
            Action::CloseFilterDialog => state.filter_dialog = None,
            Action::FilterDialogNextTab => match &mut state.filter_dialog {
                Some(d) => d.next_tab(),
                None => {},
            },
            Action::FilterDialogPrevTab => match &mut state.filter_dialog {
                Some(d) => d.prev_tab(),
                None => {},
            },
            Action::FilterDialogSelectNext => {
                let active = state.builder.filters.video_filters().len()
                    + state.builder.filters.audio_filters().len();
                match &mut state.filter_dialog {
                    Some(d) => {
                        let n = d.tab_item_count(active);
                        d.select_next(n);
                    },
                    None => {},
                }
            },
            Action::FilterDialogSelectPrev => {
                let active = state.builder.filters.video_filters().len()
                    + state.builder.filters.audio_filters().len();
                match &mut state.filter_dialog {
                    Some(d) => {
                        let n = d.tab_item_count(active);
                        d.select_prev(n);
                    },
                    None => {},
                }
            },
            Action::FilterDialogConfirm => Self::dialog_confirm(state),
            Action::FilterDialogRemoveSelected => Self::dialog_remove(state),
            Action::FilterDialogClearAll => {
                state.builder.filters.clear();
                state.status_message = Some(string_of("Cleared all filters"));
            },
            Action::FilterDialogCustomAppend(c) => match &mut state.filter_dialog {
                Some(d) => d.custom_append(c),
                None => {},
            },
            Action::FilterDialogCustomBackspace => match &mut state.filter_dialog {
                Some(d) => d.custom_backspace(),
                None => {},
            },
            Action::StartQueue => {
                state.queue_state.is_paused = false;
                state.status_message = Some(string_of("Queue started"));
                fx = Self::process_queue(state);
            },
            Action::PauseQueue => {
                state.queue_state.is_paused = true;
                state.status_message = Some(string_of("Queue paused"));
            },
            Action::ClearCompleted => {
                state.remove_finished_jobs();
                state.status_message = Some(string_of("Cleared completed jobs"));
            },
            Action::CancelJob(id) => fx = Self::cancel_job(state, id),
            Action::RetryJob(id) => fx = Self::retry_job(state, id),
            Action::SelectJob(id) => state.logs_state.selected_job = Some(id),
            Action::MoveJobUp(id) => state.move_job_up(id),
            Action::MoveJobDown(id) => state.move_job_down(id),
            Action::ToggleRawLogs => state.logs_state.show_raw_output = !state.logs_state.show_raw_output,
            Action::ToggleAutoScroll => state.logs_state.auto_scroll = !state.logs_state.auto_scroll,
            Action::ScrollUp => {
                if state.logs_state.scroll_position > 0 {
                    state.logs_state.scroll_position = state.logs_state.scroll_position - 1;
                }
            },
            Action::ScrollDown => state.logs_state.scroll_position = state.logs_state.scroll_position + 1,
            Action::ScrollToTop => state.logs_state.scroll_position = 0,
            Action::ScrollToBottom => state.logs_state.auto_scroll = true,
            Action::InspectFile(path) => {
                state.inspector.loading = true;
                state.inspector.current_path = Some(path.clone());
                state.inspector.error = None;
                state.screen = Screen::Inspector;
                fx.push(Effect::Inspect(path));
            },
            Action::JobStarted(id) => state.apply_job_event(id, JobEvent::Start),
            Action::JobProgress(id, p) => state.apply_job_event(id, JobEvent::Progress(p)),
            Action::JobLogLine(id, line) => state.apply_job_event(id, JobEvent::Log(line)),
            Action::JobCompleted(id, size) => {
                let msg = job_text(id, " completed successfully");
                fx = Self::end_run(state, id, JobEvent::Complete(size), msg);
            },
            Action::JobFailed(id, err) => {
                let mut msg = job_text(id, " failed: ");
                push_str(&mut msg, err.as_str());
                assert(msg@ =~= job_message(id, " failed: "@ + err@));
                fx = Self::end_run(state, id, JobEvent::Fail(err), msg);
            },
            Action::NextField => state.builder.current_field = state.builder.current_field.next(),
            Action::PrevField => state.builder.current_field = state.builder.current_field.prev(),
            Action::ShowStatus(msg) => state.status_message = Some(msg),
            Action::ClearStatus => state.status_message = None,
            Action::BrowserOpened(target, result) => Self::browser_arrived(state, target, result),
            Action::DirectoryRead(reason, result) => Self::listing_arrived(state, reason, result),
            Action::InputProbed(path, result) => match result {
                Ok(info) => {
                    state.builder.input_info = Some(info);
                    state.status_message = Some(message("Loaded input: ", name_text(path.as_str()).as_str()));
                },
                Err(e) => {
                    let mut msg = message("Input file set (probe failed: ", e.as_str());
                    push_str(&mut msg, ")");
                    state.status_message = Some(msg);
                },
            },
            Action::FileInspected(result) => match result {
                Ok(info) => {
                    state.inspector.media_info = Some(info);
                    state.inspector.loading = false;
                    state.status_message = Some(string_of("File inspected successfully"));
                },
                Err(e) => {
                    state.inspector.error = Some(e);
                    state.inspector.loading = false;
                    state.status_message = Some(string_of("Inspection failed"));
                },
            },
        }
        fx
    }
}


// ---------------------------------------------------------------------------
// Laws of the job queue.
// ---------------------------------------------------------------------------

/// Starting waiting jobs keeps the jobs that ran, in front; never lets more
/// than `max` run when no more did before; starts only jobs that exist and
/// have not finished, each taken from the part of the queue it consumed; and
/// stops only when `max` run or the queue is empty.
pub proof fn law_dispatch(queue: Seq<JobId>, jobs: Seq<Job>, active: Seq<JobId>, max: nat)
    requires
        active.len() <= max,
    ensures
        ({
            let r = dispatch(queue, jobs, active, max);
            &&& r.1.len() <= max
            &&& active.len() <= r.1.len()
            &&& r.1.take(active.len() as int) == active
            &&& forall|i: int| active.len() <= i < r.1.len() ==> startable(jobs, #[trigger] r.1[i])
            &&& exists|k: int| 0 <= k <= queue.len() && r.0 == queue.skip(k) && forall|i: int|
                active.len() <= i < r.1.len() ==> queue.take(k).contains(#[trigger] r.1[i])
            &&& r.1.len() >= max || r.0.len() == 0
        }),
    decreases queue.len(),
{
    let r = dispatch(queue, jobs, active, max);
    if active.len() >= max || queue.len() == 0 {
        assert(active.take(active.len() as int) =~= active);
        assert(queue.skip(0) =~= queue);
    } else {
        let id = queue[0];
        let rest = queue.drop_first();
        let next = if startable(jobs, id) { active.push(id) } else { active };
        law_dispatch(rest, jobs, next, max);
        assert(r == dispatch(rest, jobs, next, max));
        let k2 = choose|k: int| 0 <= k <= rest.len() && r.0 == rest.skip(k) && forall|i: int|
            next.len() <= i < r.1.len() ==> rest.take(k).contains(#[trigger] r.1[i]);
        assert(r.0 =~= queue.skip(k2 + 1));
        assert forall|i: int| active.len() <= i < r.1.len() implies queue.take(k2 + 1).contains(
            #[trigger] r.1[i],
        ) by {
            if i < next.len() {
                assert(r.1[i] == next[i]) by {
                    assert(r.1.take(next.len() as int)[i] == next[i]);
                }
                assert(queue.take(k2 + 1)[0] == id);
            } else {
                assert(rest.take(k2).contains(r.1[i]));
                let j = choose|j: int| 0 <= j < rest.take(k2).len() && rest.take(k2)[j] == r.1[i];
                assert(queue.take(k2 + 1)[j + 1] == r.1[i]);
            }
        }
        assert forall|i: int| active.len() <= i < r.1.len() implies startable(jobs, #[trigger] r.1[i]) by {
            if i < next.len() {
                assert(r.1[i] == next[i]) by {
                    assert(r.1.take(next.len() as int)[i] == next[i]);
                }
            }
        }
        assert(r.1.take(active.len() as int) =~= active) by {
            assert forall|i: int| 0 <= i < active.len() implies r.1[i] == active[i] by {
                assert(r.1.take(next.len() as int)[i] == next[i]);
            }
        }
    }
}

/// While the queue is paused, processing it starts nothing and changes nothing.
pub proof fn law_paused_queue_starts_nothing(m: ApplicationState, t: ApplicationState, fx: Seq<Effect>)
    requires
        m.queue_state.is_paused,
        queue_processed(m, t, fx),
    ensures
        t == m,
        fx.len() == 0,
{
}

/// Processing the queue never lets more jobs run than allowed, when no more
/// ran before, and asks to run exactly the jobs it adds to those that run.
pub proof fn law_queue_respects_limit(m: ApplicationState, t: ApplicationState, fx: Seq<Effect>)
    requires
        m.active_jobs@.len() <= m.max_concurrent_jobs,
        queue_processed(m, t, fx),
    ensures
        t.active_jobs@.len() <= m.max_concurrent_jobs,
        t.active_jobs@.take(m.active_jobs@.len() as int) == m.active_jobs@,
        fx == spawn_effects(t.active_jobs@.skip(m.active_jobs@.len() as int)),
{
    if !m.queue_state.is_paused {
        law_dispatch(m.job_queue@, m.jobs@, m.active_jobs@, m.max_concurrent_jobs as nat);
    } else {
        assert(m.active_jobs@.take(m.active_jobs@.len() as int) =~= m.active_jobs@);
        assert(m.active_jobs@.skip(m.active_jobs@.len() as int) =~= Seq::<JobId>::empty());
    }
}

/// A cancelled job is never started by processing the queue: cancelling
/// leaves it in a terminal state.
pub proof fn law_cancelled_job_is_not_started(before: Seq<Job>, after: Seq<Job>, id: JobId)
    requires
        jobs_after_event(before, after, id, JobEvent::Cancel),
    ensures
        !startable(after, id),
{
    if startable(after, id) {
        let i = choose|i: int| #[trigger] first_job_at(after, id, i) && !after[i].spec_status().spec_is_terminal();
        assert(after[i].spec_id() == id);
        if first_job_at(before, id, i) {
            assert(after[i].spec_status() == crate::domain::job::cancelled_status(before[i].spec_status()));
        } else {
            assert(after[i] == before[i]);
            let j = choose|j: int| 0 <= j < i && before[j].spec_id() == id;
            assert(before[j].spec_id() == id);
            assert(false) by {
                assert(first_job_at(after, id, i));
                if first_job_at(before, id, j) {
                    assert(after[j].same_but_status(before[j]));
                } else {
                    assert(after[j] == before[j]);
                }
            }
        }
    }
}

/// A job that was cancelled can always be queued again.
pub proof fn law_cancelled_job_can_be_retried(jobs: Seq<Job>, id: JobId, k: int)
    requires
        first_job_at(jobs, id, k),
        jobs[k].spec_status() is Cancelled,
    ensures
        retry_possible(jobs, id),
{
}


/// Removing an identifier never makes a list longer.
proof fn lemma_ids_without_shorter(s: Seq<JobId>, id: JobId)
    ensures
        ids_without(s, id).len() <= s.len(),
    decreases s.len(),
{
    if s.len() > 0 {
        lemma_ids_without_shorter(s.drop_last(), id);
    }
}

/// Handling any action never lets more jobs run than allowed, when no more
/// ran before, and never changes how many may run.
pub proof fn law_handle_respects_limit(s: ApplicationState, action: Action, t: ApplicationState, fx: Seq<Effect>)
    requires
        handled(s, action, t, fx),
        s.active_jobs@.len() <= s.max_concurrent_jobs,
    ensures
        t.active_jobs@.len() <= t.max_concurrent_jobs,
        t.max_concurrent_jobs == s.max_concurrent_jobs,
{
    match action {
        Action::BuildJob => {
            if s.builder.input_path is Some && s.builder.output_path is Some {
                let (m, id) = choose|m: ApplicationState, id: JobId| #[trigger] job_queued(s, m, id)
                    && queue_processed(m, t, fx);
                law_queue_respects_limit(m, t, fx);
            }
        },
        Action::StartQueue => {
            let m = ApplicationState {
                queue_state: QueueState { is_paused: false, ..s.queue_state },
                status_message: t.status_message,
                ..s
            };
            law_queue_respects_limit(m, t, fx);
        },
        Action::CancelJob(id) => {
            let m = choose|m: ApplicationState| #[trigger] queue_processed(m, t, fx.skip(1)) && {
                &&& m == (ApplicationState {
                    jobs: m.jobs,
                    active_jobs: m.active_jobs,
                    job_queue: m.job_queue,
                    status_message: m.status_message,
                    ..s
                })
                &&& jobs_after_event(s.jobs@, m.jobs@, id, JobEvent::Cancel)
                &&& m.active_jobs@ == ids_without(s.active_jobs@, id)
                &&& m.job_queue@ == ids_without(s.job_queue@, id)
                &&& status_is(m, job_message(id, " cancelled"@))
                &&& fx.len() >= 1
                &&& fx[0] == Effect::AbortTask(id)
            };
            lemma_ids_without_shorter(s.active_jobs@, id);
            law_queue_respects_limit(m, t, fx.skip(1));
        },
        Action::RetryJob(id) => {
            if retry_possible(s.jobs@, id) {
                let m = choose|m: ApplicationState| #[trigger] queue_processed(m, t, fx) && {
                    &&& m == (ApplicationState {
                        jobs: m.jobs,
                        job_queue: m.job_queue,
                        status_message: m.status_message,
                        ..s
                    })
                    &&& forall|k: int| #[trigger] first_job_at(s.jobs@, id, k) ==> {
                        &&& m.jobs@ == s.jobs@.update(k, m.jobs@[k])
                        &&& m.jobs@[k].spec_status() is Queued
                        &&& m.jobs@[k].same_but_status(s.jobs@[k])
                    }
                    &&& m.job_queue@ == s.job_queue@.push(id)
                    &&& status_is(m, job_message(id, " requeued for retry"@))
                };
                law_queue_respects_limit(m, t, fx);
            }
        },
        Action::JobCompleted(id, size) => {
            lemma_run_end_respects_limit(s, id, JobEvent::Complete(size), job_message(id, " completed successfully"@), t, fx);
        },
        Action::JobFailed(id, err) => {
            lemma_run_end_respects_limit(s, id, JobEvent::Fail(err), job_message(id, " failed: "@ + err@), t, fx);
        },
        _ => {},
    }
}

/// Handling any action keeps each job identifier naming one job: building a
/// job replaces the job of a repeated identifier, events and retries keep
/// identifiers, and clearing keeps only jobs that were there.
pub proof fn law_handle_keeps_ids_unique(s: ApplicationState, action: Action, t: ApplicationState, fx: Seq<Effect>)
    requires
        handled(s, action, t, fx),
        ids_unique(s.jobs@),
    ensures
        ids_unique(t.jobs@),
{
    match action {
        Action::BuildJob => {
            if s.builder.input_path is Some && s.builder.output_path is Some {
                let (m, id) = choose|m: ApplicationState, id: JobId| #[trigger] job_queued(s, m, id)
                    && queue_processed(m, t, fx);
                let k = choose|k: int| #[trigger] new_job_at(s.jobs@, m.jobs@, id, k) && built_job(
                    m.jobs@[k],
                    id,
                    s.builder,
                    s.builder.input_path.unwrap(),
                    s.builder.output_path.unwrap(),
                );
                lemma_new_job_keeps_ids(s.jobs@, m.jobs@, id, k);
            }
        },
        Action::CancelJob(id) => {
            let m = choose|m: ApplicationState| #[trigger] queue_processed(m, t, fx.skip(1)) && {
                &&& m == (ApplicationState {
                    jobs: m.jobs,
                    active_jobs: m.active_jobs,
                    job_queue: m.job_queue,
                    status_message: m.status_message,
                    ..s
                })
                &&& jobs_after_event(s.jobs@, m.jobs@, id, JobEvent::Cancel)
                &&& m.active_jobs@ == ids_without(s.active_jobs@, id)
                &&& m.job_queue@ == ids_without(s.job_queue@, id)
                &&& status_is(m, job_message(id, " cancelled"@))
                &&& fx.len() >= 1
                &&& fx[0] == Effect::AbortTask(id)
            };
            lemma_event_keeps_ids(s.jobs@, m.jobs@, id, JobEvent::Cancel);
        },
        Action::RetryJob(id) => {
            if retry_possible(s.jobs@, id) {
                let m = choose|m: ApplicationState| #[trigger] queue_processed(m, t, fx) && {
                    &&& m == (ApplicationState {
                        jobs: m.jobs,
                        job_queue: m.job_queue,
                        status_message: m.status_message,
                        ..s
                    })
                    &&& forall|k: int| #[trigger] first_job_at(s.jobs@, id, k) ==> {
                        &&& m.jobs@ == s.jobs@.update(k, m.jobs@[k])
                        &&& m.jobs@[k].spec_status() is Queued
                        &&& m.jobs@[k].same_but_status(s.jobs@[k])
                    }
                    &&& m.job_queue@ == s.job_queue@.push(id)
                    &&& status_is(m, job_message(id, " requeued for retry"@))
                };
                let k = choose|k: int| #[trigger] first_job_at(s.jobs@, id, k) && can_requeue(
                    s.jobs@[k].spec_status(),
                    s.jobs@[k].spec_config().max_retries,
                );
                assert(forall|j: int| 0 <= j < m.jobs@.len() ==> #[trigger] m.jobs@[j].spec_id()
                    == s.jobs@[j].spec_id());
            }
        },
        Action::ClearCompleted => {
            lemma_unfinished_keeps_ids(s.jobs@);
        },
        Action::JobStarted(id) => {
            lemma_event_keeps_ids(s.jobs@, t.jobs@, id, JobEvent::Start);
        },
        Action::JobProgress(id, p) => {
            lemma_event_keeps_ids(s.jobs@, t.jobs@, id, JobEvent::Progress(p));
        },
        Action::JobLogLine(id, line) => {
            lemma_event_keeps_ids(s.jobs@, t.jobs@, id, JobEvent::Log(line));
        },
        Action::JobCompleted(id, size) => {
            lemma_run_end_keeps_ids(s, id, JobEvent::Complete(size), job_message(id, " completed successfully"@), t, fx);
        },
        Action::JobFailed(id, err) => {
            lemma_run_end_keeps_ids(s, id, JobEvent::Fail(err), job_message(id, " failed: "@ + err@), t, fx);
        },
        _ => {},
    }
}

/// The end of a run keeps each job identifier naming one job.
proof fn lemma_run_end_keeps_ids(
    s: ApplicationState,
    id: JobId,
    ev: JobEvent,
    msg: Seq<char>,
    t: ApplicationState,
    fx: Seq<Effect>,
)
    requires
        run_ended(s, id, ev, msg, t, fx),
        ids_unique(s.jobs@),
    ensures
        ids_unique(t.jobs@),
{
    let m = choose|m: ApplicationState| #[trigger] queue_processed(m, t, fx.skip(1)) && {
        &&& m == (ApplicationState {
            jobs: m.jobs,
            active_jobs: m.active_jobs,
            status_message: m.status_message,
            ..s
        })
        &&& jobs_after_event(s.jobs@, m.jobs@, id, ev)
        &&& m.active_jobs@ == ids_without(s.active_jobs@, id)
        &&& status_is(m, msg)
        &&& fx.len() >= 1
        &&& fx[0] == Effect::ForgetTask(id)
    };
    lemma_event_keeps_ids(s.jobs@, m.jobs@, id, ev);
}

/// The end of a run never lets more jobs run than allowed.
proof fn lemma_run_end_respects_limit(
    s: ApplicationState,
    id: JobId,
    ev: JobEvent,
    msg: Seq<char>,
    t: ApplicationState,
    fx: Seq<Effect>,
)
    requires
        run_ended(s, id, ev, msg, t, fx),
        s.active_jobs@.len() <= s.max_concurrent_jobs,
    ensures
        t.active_jobs@.len() <= t.max_concurrent_jobs,
        t.max_concurrent_jobs == s.max_concurrent_jobs,
{
    let m = choose|m: ApplicationState| #[trigger] queue_processed(m, t, fx.skip(1)) && {
        &&& m == (ApplicationState {
            jobs: m.jobs,
            active_jobs: m.active_jobs,
            status_message: m.status_message,
            ..s
        })
        &&& jobs_after_event(s.jobs@, m.jobs@, id, ev)
        &&& m.active_jobs@ == ids_without(s.active_jobs@, id)
        &&& status_is(m, msg)
        &&& fx.len() >= 1
        &&& fx[0] == Effect::ForgetTask(id)
    };
    lemma_ids_without_shorter(s.active_jobs@, id);
    law_queue_respects_limit(m, t, fx.skip(1));
}

} // verus!
