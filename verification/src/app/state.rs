//! Screens, builder fields, and the per-screen parts of the application state.

use vstd::prelude::*;
use crate::app::file_browser::FileBrowserState;
use crate::app::filter_dialog::FilterDialogState;
use crate::domain::job::{
    cancelled_status, completed_status, failure_count, progressed_status, started_status,
    can_requeue, Job, JobConfig, JobId, JobProgress, JobStatus,
};
use crate::domain::media_info::MediaInfo;
use crate::domain::{AudioCodec, ContainerFormat, EncodingPreset, FilterChain, VideoCodec};
use crate::infra::{FFMpegExecutor, FFProbeExecutor};
use crate::preset::builtin::{builtin_presets, is_builtin_list, Preset};
use crate::quantity::FloatBits;

verus! {

/// The screens of the application.
#[derive(Debug, Clone, Copy, PartialEq, Eq, Structural)]
pub enum Screen {
    Dashboard,
    Builder,
    Queue,
    Logs,
    Inspector,
    Help,
}

impl Screen {
    /// The title of the screen.
    pub open spec fn spec_title(self) -> Seq<char> {
        match self {
            Screen::Dashboard => "Dashboard"@,
            Screen::Builder => "Builder"@,
            Screen::Queue => "Job Queue"@,
            Screen::Logs => "Logs"@,
            Screen::Inspector => "File Inspector"@,
            Screen::Help => "Help"@,
        }
    }

    /// Returns the title of the screen.
    pub fn title(&self) -> (res: &'static str)
        ensures
            res@ == self.spec_title(),
    {
        match self {
            Screen::Dashboard => "Dashboard",
            Screen::Builder => "Builder",
            Screen::Queue => "Job Queue",
            Screen::Logs => "Logs",
            Screen::Inspector => "File Inspector",
            Screen::Help => "Help",
        }
    }

    /// The key that switches to the screen.
    pub open spec fn spec_key(self) -> char {
        match self {
            Screen::Dashboard => '1',
            Screen::Builder => '2',
            Screen::Queue => '3',
            Screen::Logs => '4',
            Screen::Inspector => '5',
            Screen::Help => '?',
        }
    }

    /// Returns the key that switches to the screen.
    pub fn key(&self) -> (res: char)
        ensures
            res == self.spec_key(),
    {
        match self {
            Screen::Dashboard => '1',
            Screen::Builder => '2',
            Screen::Queue => '3',
            Screen::Logs => '4',
            Screen::Inspector => '5',
            Screen::Help => '?',
        }
    }
}

impl Default for Screen {
    fn default() -> (res: Self)
        ensures
            res == Screen::Dashboard,
    {
        Screen::Dashboard
    }
}

/// The fields of the builder form, in the order focus moves through them.
#[derive(Debug, Clone, Copy, PartialEq, Eq, Structural)]
pub enum BuilderField {
    Input,
    Output,
    VideoCodec,
    AudioCodec,
    Format,
    Quality,
    Preset,
    Filters,
}

impl BuilderField {
    /// The fields in order.
    pub open spec fn spec_all() -> Seq<BuilderField> {
        seq![
            BuilderField::Input,
            BuilderField::Output,
            BuilderField::VideoCodec,
            BuilderField::AudioCodec,
            BuilderField::Format,
            BuilderField::Quality,
            BuilderField::Preset,
            BuilderField::Filters,
        ]
    }

    /// Returns the fields in order.
    pub fn all() -> (res: &'static [BuilderField])
        ensures
            res@ == Self::spec_all(),
    {
        &[
            BuilderField::Input,
            BuilderField::Output,
            BuilderField::VideoCodec,
            BuilderField::AudioCodec,
            BuilderField::Format,
            BuilderField::Quality,
            BuilderField::Preset,
            BuilderField::Filters,
        ]
    }

    /// The label of the field.
    pub open spec fn spec_label(self) -> Seq<char> {
        match self {
            BuilderField::Input => "Input File"@,
            BuilderField::Output => "Output File"@,
            BuilderField::VideoCodec => "Video Codec"@,
            BuilderField::AudioCodec => "Audio Codec"@,
            BuilderField::Format => "Container Format"@,
            BuilderField::Quality => "Quality (CRF)"@,
            BuilderField::Preset => "Encoding Preset"@,
            BuilderField::Filters => "Filters"@,
        }
    }

    /// Returns the label of the field.
    pub fn label(&self) -> (res: &'static str)
        ensures
            res@ == self.spec_label(),
    {
        match self {
            BuilderField::Input => "Input File",
            BuilderField::Output => "Output File",
            BuilderField::VideoCodec => "Video Codec",
            BuilderField::AudioCodec => "Audio Codec",
            BuilderField::Format => "Container Format",
            BuilderField::Quality => "Quality (CRF)",
            BuilderField::Preset => "Encoding Preset",
            BuilderField::Filters => "Filters",
        }
    }

    /// The position of the field in the form.
    pub open spec fn spec_position(self) -> int {
        match self {
            BuilderField::Input => 0,
            BuilderField::Output => 1,
            BuilderField::VideoCodec => 2,
            BuilderField::AudioCodec => 3,
            BuilderField::Format => 4,
            BuilderField::Quality => 5,
            BuilderField::Preset => 6,
            BuilderField::Filters => 7,
        }
    }

    /// The next field, wrapping from the last to the first.
    pub open spec fn spec_next(self) -> BuilderField {
        Self::spec_all()[(self.spec_position() + 1) % 8]
    }

    /// The previous field, wrapping from the first to the last.
    pub open spec fn spec_prev(self) -> BuilderField {
        Self::spec_all()[(self.spec_position() + 7) % 8]
    }

    /// Returns the next field, wrapping from the last to the first.
    pub fn next(&self) -> (res: BuilderField)
        ensures
            res == self.spec_next(),
    {
        match self {
            BuilderField::Input => BuilderField::Output,
            BuilderField::Output => BuilderField::VideoCodec,
            BuilderField::VideoCodec => BuilderField::AudioCodec,
            BuilderField::AudioCodec => BuilderField::Format,
            BuilderField::Format => BuilderField::Quality,
            BuilderField::Quality => BuilderField::Preset,
            BuilderField::Preset => BuilderField::Filters,
            BuilderField::Filters => BuilderField::Input,
        }
    }

    /// Returns the previous field, wrapping from the first to the last.
    pub fn prev(&self) -> (res: BuilderField)
        ensures
            res == self.spec_prev(),
    {
        match self {
            BuilderField::Input => BuilderField::Filters,
            BuilderField::Output => BuilderField::Input,
            BuilderField::VideoCodec => BuilderField::Output,
            BuilderField::AudioCodec => BuilderField::VideoCodec,
            BuilderField::Format => BuilderField::AudioCodec,
            BuilderField::Quality => BuilderField::Format,
            BuilderField::Preset => BuilderField::Quality,
            BuilderField::Filters => BuilderField::Preset,
        }
    }
}

impl Default for BuilderField {
    fn default() -> (res: Self)
        ensures
            res == BuilderField::Input,
    {
        BuilderField::Input
    }
}

/// Moving focus to the next field and back again, or back and forward, returns
/// to the same field; eight steps forward go round the form.
#[verifier::spinoff_prover]
#[verifier::rlimit(40)]
pub proof fn law_field_cycle(f: BuilderField)
    ensures
        f.spec_next().spec_prev() == f,
        f.spec_prev().spec_next() == f,
        f.spec_next().spec_next().spec_next().spec_next().spec_next().spec_next().spec_next().spec_next()
            == f,
{
    match f {
        BuilderField::Input => {},
        BuilderField::Output => {},
        BuilderField::VideoCodec => {},
        BuilderField::AudioCodec => {},
        BuilderField::Format => {},
        BuilderField::Quality => {},
        BuilderField::Preset => {},
        BuilderField::Filters => {},
    }
}

/// State of the queue screen.
#[derive(Debug, Clone, Copy)]
pub struct QueueState {
    pub selected_index: usize,
    pub show_completed: bool,
    pub is_paused: bool,
}

impl Default for QueueState {
    fn default() -> (res: Self)
        ensures
            res.selected_index == 0,
            !res.show_completed,
            !res.is_paused,
    {
        QueueState { selected_index: 0, show_completed: false, is_paused: false }
    }
}

/// State of the logs screen.
#[derive(Debug, Clone, Copy)]
pub struct LogsState {
    pub selected_job: Option<JobId>,
    pub show_raw_output: bool,
    pub scroll_position: usize,
    pub auto_scroll: bool,
}

impl Default for LogsState {
    fn default() -> (res: Self)
        ensures
            res.selected_job.is_none(),
            !res.show_raw_output,
            res.scroll_position == 0,
            !res.auto_scroll,
    {
        LogsState { selected_job: None, show_raw_output: false, scroll_position: 0, auto_scroll: false }
    }
}

} // verus!

verus! {

/// State of the command builder screen. Paths are held as text.
#[derive(Debug)]
pub struct BuilderState {
    pub input_path: Option<String>,
    pub output_path: Option<String>,
    pub selected_preset: Option<String>,
    pub input_info: Option<MediaInfo>,
    pub video_codec: VideoCodec,
    pub audio_codec: AudioCodec,
    pub format: ContainerFormat,
    pub crf: u8,
    pub preset: EncodingPreset,
    pub filters: FilterChain,
    pub preset_index: usize,
    pub current_field: BuilderField,
    pub raw_command_mode: bool,
    pub raw_command: String,
}

impl Default for BuilderState {
    /// Nothing chosen: H.264 and AAC in MP4 at quality 23 with the medium
    /// preset, no filters, on the input field.
    fn default() -> (res: Self)
        ensures
            res.input_path.is_none(),
            res.output_path.is_none(),
            res.selected_preset.is_none(),
            res.input_info.is_none(),
            res.video_codec == VideoCodec::H264,
            res.audio_codec == AudioCodec::Aac,
            res.format == ContainerFormat::Mp4,
            res.crf == 23,
            res.preset == EncodingPreset::Medium,
            res.filters.video().len() == 0,
            res.filters.audio().len() == 0,
            res.preset_index == 0,
            res.current_field == BuilderField::Input,
            !res.raw_command_mode,
            res.raw_command@.len() == 0,
    {
        BuilderState {
            input_path: None,
            output_path: None,
            selected_preset: None,
            input_info: None,
            video_codec: VideoCodec::H264,
            audio_codec: AudioCodec::Aac,
            format: ContainerFormat::Mp4,
            crf: 23,
            preset: EncodingPreset::Medium,
            filters: FilterChain::new(),
            preset_index: 0,
            current_field: BuilderField::Input,
            raw_command_mode: false,
            raw_command: String::new(),
        }
    }
}

/// State of the file inspector screen.
#[derive(Debug)]
pub struct InspectorState {
    pub current_path: Option<String>,
    pub media_info: Option<MediaInfo>,
    pub loading: bool,
    pub error: Option<String>,
}

impl Default for InspectorState {
    fn default() -> (res: Self)
        ensures
            res.current_path.is_none(),
            res.media_info.is_none(),
            !res.loading,
            res.error.is_none(),
    {
        InspectorState { current_path: None, media_info: None, loading: false, error: None }
    }
}

/// A change to one job, as the events of its run bring them.
#[derive(Debug)]
pub enum JobEvent {
    Start,
    Progress(JobProgress),
    Complete(u64),
    Fail(String),
    Log(String),
    Cancel,
    SetDuration(FloatBits),
}

/// Whether `after` is `before` changed by the event. A failure is recorded
/// only while the count of failures fits its counter.
pub open spec fn event_applied(before: Job, after: Job, ev: JobEvent) -> bool {
    match ev {
        JobEvent::Start => after.same_but_status(before) && exists|t: i64|
            after.spec_status() == started_status(before.spec_status(), t),
        JobEvent::Progress(p) => after.same_but_status(before) && after.spec_status()
            == progressed_status(before.spec_status(), p),
        JobEvent::Complete(size) => after.same_but_status(before) && exists|t: i64|
            after.spec_status() == completed_status(before.spec_status(), t, size),
        JobEvent::Fail(e) => if failure_count(before.spec_status()) <= u32::MAX {
            after.same_but_status(before) && after.spec_status() == (JobStatus::Failed {
                error: e,
                retries: failure_count(before.spec_status()) as u32,
            })
        } else {
            after == before
        },
        JobEvent::Log(line) => {
            &&& after.spec_log() == before.spec_log().push(line)
            &&& after.spec_id() == before.spec_id()
            &&& after.spec_config() == before.spec_config()
            &&& after.spec_status() == before.spec_status()
            &&& after.spec_created_at() == before.spec_created_at()
            &&& after.spec_source_duration() == before.spec_source_duration()
        },
        JobEvent::Cancel => after.same_but_status(before) && after.spec_status() == cancelled_status(
            before.spec_status(),
        ),
        JobEvent::SetDuration(d) => {
            &&& after.spec_source_duration() == Some(d)
            &&& after.spec_id() == before.spec_id()
            &&& after.spec_config() == before.spec_config()
            &&& after.spec_status() == before.spec_status()
            &&& after.spec_created_at() == before.spec_created_at()
            &&& after.spec_log() == before.spec_log()
        },
    }
}

/// Whether no two jobs share an identifier: each identifier names one job.
pub open spec fn ids_unique(jobs: Seq<Job>) -> bool {
    forall|i: int, j: int| 0 <= i < j < jobs.len() ==> #[trigger] jobs[i].spec_id() != #[trigger] jobs[j].spec_id()
}

/// An event keeps the job's identifier.
proof fn lemma_event_keeps_id(before: Job, after: Job, ev: JobEvent)
    requires
        event_applied(before, after, ev),
    ensures
        after.spec_id() == before.spec_id(),
{
}

/// Applying an event to a job keeps every identifier where it was.
pub proof fn lemma_event_keeps_ids(before: Seq<Job>, after: Seq<Job>, id: JobId, ev: JobEvent)
    requires
        jobs_after_event(before, after, id, ev),
    ensures
        forall|k: int| 0 <= k < after.len() ==> #[trigger] after[k].spec_id() == before[k].spec_id(),
        ids_unique(before) ==> ids_unique(after),
{
    assert forall|k: int| 0 <= k < after.len() implies #[trigger] after[k].spec_id() == before[k].spec_id() by {
        if first_job_at(before, id, k) {
            lemma_event_keeps_id(before[k], after[k], ev);
        }
    }
}

/// Leaving out the finished jobs keeps the others, each of them a job that
/// was there, so identifiers stay unique.
pub proof fn lemma_unfinished_keeps_ids(s: Seq<Job>)
    ensures
        forall|i: int| 0 <= i < unfinished_jobs(s).len() ==> s.contains(#[trigger] unfinished_jobs(s)[i]),
        ids_unique(s) ==> ids_unique(unfinished_jobs(s)),
    decreases s.len(),
{
    if s.len() > 0 {
        let p = s.drop_last();
        lemma_unfinished_keeps_ids(p);
        let u = unfinished_jobs(p);
        assert forall|i: int| 0 <= i < unfinished_jobs(s).len() implies s.contains(#[trigger] unfinished_jobs(s)[i]) by {
            if i < u.len() {
                let j = choose|j: int| 0 <= j < p.len() && p[j] == u[i];
                assert(s[j] == u[i]);
            } else {
                assert(s[s.len() - 1] == s.last());
            }
        }
        if ids_unique(s) && !s.last().spec_status().spec_is_terminal() {
            assert forall|i: int, j: int| 0 <= i < j < unfinished_jobs(s).len() implies
                #[trigger] unfinished_jobs(s)[i].spec_id() != #[trigger] unfinished_jobs(s)[j].spec_id() by {
                if j == u.len() {
                    let a = choose|a: int| 0 <= a < p.len() && p[a] == u[i];
                    assert(s[a] == u[i] && s[s.len() - 1] == s.last());
                }
            }
        }
    }
}

/// Putting a job with identifier `id` where the first job of `id` was, or at
/// the end when there was none, keeps identifiers unique.
pub proof fn lemma_new_job_keeps_ids(before: Seq<Job>, after: Seq<Job>, id: JobId, k: int)
    requires
        ids_unique(before),
        0 <= k < after.len(),
        after[k].spec_id() == id,
        has_job(before, id) ==> first_job_at(before, id, k) && after == before.update(k, after[k]),
        !has_job(before, id) ==> k == before.len() && after == before.push(after[k]),
    ensures
        ids_unique(after),
{
    if !has_job(before, id) {
        assert forall|i: int, j: int| 0 <= i < j < after.len() implies
            #[trigger] after[i].spec_id() != #[trigger] after[j].spec_id() by {
            if j == k {
                assert(after[i] == before[i]);
            }
        }
    }
}

/// Whether `i` is the position of the first job with identifier `id`.
pub open spec fn first_job_at(jobs: Seq<Job>, id: JobId, i: int) -> bool {
    &&& 0 <= i < jobs.len()
    &&& jobs[i].spec_id() == id
    &&& forall|j: int| 0 <= j < i ==> (#[trigger] jobs[j]).spec_id() != id
}

/// Whether some job has identifier `id`.
pub open spec fn has_job(jobs: Seq<Job>, id: JobId) -> bool {
    exists|i: int| 0 <= i < jobs.len() && (#[trigger] jobs[i]).spec_id() == id
}

/// Whether `after` is `before` with the first job of `id`, if there is one,
/// changed by the event, and every other job as it was.
pub open spec fn jobs_after_event(before: Seq<Job>, after: Seq<Job>, id: JobId, ev: JobEvent) -> bool {
    &&& after.len() == before.len()
    &&& forall|k: int| 0 <= k < before.len() ==> if first_job_at(before, id, k) {
        event_applied(before[k], after[k], ev)
    } else {
        after[k] == before[k]
    }
}

/// Whether `j` is a job just made from `config` with identifier `id` and queued.
pub open spec fn is_queued_new_job(j: Job, config: JobConfig, id: JobId) -> bool {
    &&& j.spec_id() == id
    &&& j.spec_config() == config
    &&& j.spec_status() is Queued
    &&& j.spec_log().len() == 0
    &&& j.spec_source_duration().is_none()
}

/// `s` without the identifier `id`, the others in order.
pub open spec fn ids_without(s: Seq<JobId>, id: JobId) -> Seq<JobId>
    decreases s.len(),
{
    if s.len() == 0 {
        s
    } else if s.last() == id {
        ids_without(s.drop_last(), id)
    } else {
        ids_without(s.drop_last(), id).push(s.last())
    }
}

/// Removing an identifier from a list of identifiers keeps every other
/// identifier, in its order: the result is the list filtered by `x != id`, so
/// `id` is gone and every other identifier occurs as often as before.
pub proof fn law_ids_without_is_filter(s: Seq<JobId>, id: JobId)
    ensures
        ids_without(s, id) == s.filter(|x: JobId| x != id),
        !ids_without(s, id).contains(id),
        forall|x: JobId| x != id ==> #[trigger] ids_without(s, id).to_multiset().count(x) == s.to_multiset().count(x),
    decreases s.len(),
{
    broadcast use vstd::seq_lib::group_to_multiset_ensures;
    let pred = |x: JobId| x != id;
    if s.len() == 0 {
        assert(s.filter(pred) =~= s) by {
            reveal(Seq::filter);
        }
    } else {
        let p = s.drop_last();
        law_ids_without_is_filter(p, id);
        assert(s =~= p.push(s.last()));
        p.lemma_filter_push(s.last(), pred);
        assert forall|x: JobId| x != id implies #[trigger] ids_without(s, id).to_multiset().count(x)
            == s.to_multiset().count(x) by {
            assert(ids_without(p, id).to_multiset().count(x) == p.to_multiset().count(x));
            if s.last() != id {
                assert(ids_without(s, id) == ids_without(p, id).push(s.last()));
            }
        }
    }
}

/// The jobs of `s` that have not reached a terminal state, in order.
pub open spec fn unfinished_jobs(s: Seq<Job>) -> Seq<Job>
    decreases s.len(),
{
    if s.len() == 0 {
        s
    } else if s.last().spec_status().spec_is_terminal() {
        unfinished_jobs(s.drop_last())
    } else {
        unfinished_jobs(s.drop_last()).push(s.last())
    }
}

/// The number of jobs of `s` in a terminal state.
pub open spec fn finished_count(s: Seq<Job>) -> nat
    decreases s.len(),
{
    if s.len() == 0 {
        0
    } else {
        finished_count(s.drop_last()) + if s.last().spec_status().spec_is_terminal() { 1nat } else { 0nat }
    }
}

/// The first position of `id` in `s`, if it is there.
pub open spec fn first_index(s: Seq<JobId>, id: JobId, i: int) -> bool {
    &&& 0 <= i < s.len()
    &&& s[i] == id
    &&& forall|j: int| 0 <= j < i ==> s[j] != id
}

/// `s` with the entries at `i` and `j` exchanged.
pub open spec fn swapped_ids(s: Seq<JobId>, i: int, j: int) -> Seq<JobId> {
    s.update(i, s[j]).update(j, s[i])
}

/// The queue after moving `id` one place toward the front, if it is there
/// and not already first.
pub open spec fn moved_up(s: Seq<JobId>, id: JobId) -> Seq<JobId> {
    if exists|i: int| first_index(s, id, i) && i > 0 {
        let i = choose|i: int| first_index(s, id, i);
        swapped_ids(s, i, i - 1)
    } else {
        s
    }
}

/// The queue after moving `id` one place toward the back, if it is there
/// and not already last.
pub open spec fn moved_down(s: Seq<JobId>, id: JobId) -> Seq<JobId> {
    if exists|i: int| first_index(s, id, i) && i + 1 < s.len() {
        let i = choose|i: int| first_index(s, id, i);
        swapped_ids(s, i, i + 1)
    } else {
        s
    }
}

/// The whole state of the application. The jobs are kept in the order they
/// were added; the queue lists the jobs waiting to run, the front first; the
/// active list those that run.
#[derive(Debug)]
pub struct ApplicationState {
    pub screen: Screen,
    pub running: bool,
    pub status_message: Option<String>,
    pub builder: BuilderState,
    pub queue_state: QueueState,
    pub logs_state: LogsState,
    pub inspector: InspectorState,
    pub file_browser: Option<FileBrowserState>,
    pub filter_dialog: Option<FilterDialogState>,
    pub jobs: Vec<Job>,
    pub job_queue: Vec<JobId>,
    pub active_jobs: Vec<JobId>,
    pub presets: Vec<Preset>,
    pub ffmpeg: FFMpegExecutor,
    pub ffprobe: FFProbeExecutor,
    pub max_concurrent_jobs: usize,
}

impl ApplicationState {
    /// The application as it starts: on the dashboard, running, with the
    /// built-in presets, no jobs, and two jobs at a time.
    pub fn new(ffmpeg: FFMpegExecutor, ffprobe: FFProbeExecutor) -> (res: Self)
        ensures
            res.screen == Screen::Dashboard,
            res.running,
            res.status_message.is_none(),
            res.builder.input_path.is_none(),
            res.builder.output_path.is_none(),
            res.builder.video_codec == VideoCodec::H264,
            res.builder.audio_codec == AudioCodec::Aac,
            res.builder.format == ContainerFormat::Mp4,
            res.builder.crf == 23,
            res.builder.preset == EncodingPreset::Medium,
            res.builder.filters.video().len() == 0,
            res.builder.filters.audio().len() == 0,
            res.builder.preset_index == 0,
            res.builder.current_field == BuilderField::Input,
            !res.builder.raw_command_mode,
            res.builder.raw_command@.len() == 0,
            res.queue_state.selected_index == 0,
            !res.queue_state.is_paused,
            res.logs_state.auto_scroll,
            res.logs_state.selected_job.is_none(),
            res.logs_state.scroll_position == 0,
            !res.inspector.loading,
            res.inspector.media_info.is_none(),
            res.file_browser.is_none(),
            res.filter_dialog.is_none(),
            res.jobs@.len() == 0,
            ids_unique(res.jobs@),
            res.job_queue@.len() == 0,
            res.active_jobs@.len() == 0,
            is_builtin_list(res.presets@),
            res.ffmpeg == ffmpeg,
            res.ffprobe == ffprobe,
            res.max_concurrent_jobs == 2,
    {
        ApplicationState {
            screen: Screen::Dashboard,
            running: true,
            status_message: None,
            builder: BuilderState::default(),
            queue_state: QueueState::default(),
            logs_state: LogsState {
                selected_job: None,
                show_raw_output: false,
                scroll_position: 0,
                auto_scroll: true,
            },
            inspector: InspectorState::default(),
            file_browser: None,
            filter_dialog: None,
            jobs: Vec::new(),
            job_queue: Vec::new(),
            active_jobs: Vec::new(),
            presets: builtin_presets(),
            ffmpeg,
            ffprobe,
            max_concurrent_jobs: 2,
        }
    }

    /// Returns the FFmpeg executor.
    pub fn ffmpeg(&self) -> (res: &FFMpegExecutor)
        ensures
            *res == self.ffmpeg,
    {
        &self.ffmpeg
    }

    /// Returns the FFprobe executor.
    pub fn ffprobe(&self) -> (res: &FFProbeExecutor)
        ensures
            *res == self.ffprobe,
    {
        &self.ffprobe
    }

    /// Returns the jobs, in the order they were added.
    pub fn jobs(&self) -> (res: &Vec<Job>)
        ensures
            res@ == self.jobs@,
    {
        &self.jobs
    }

    /// Returns the queue of waiting jobs, the front first.
    pub fn job_queue(&self) -> (res: &Vec<JobId>)
        ensures
            res@ == self.job_queue@,
    {
        &self.job_queue
    }

    /// Returns the jobs that run.
    pub fn active_jobs(&self) -> (res: &Vec<JobId>)
        ensures
            res@ == self.active_jobs@,
    {
        &self.active_jobs
    }

    /// Returns the position of the first job with identifier `id`.
    pub fn job_position(&self, id: JobId) -> (res: Option<usize>)
        ensures
            res matches Some(i) ==> first_job_at(self.jobs@, id, i as int),
            res is None ==> !has_job(self.jobs@, id),
    {
        let mut i: usize = 0;
        while i < self.jobs.len()
            invariant
                i <= self.jobs@.len(),
                forall|j: int| 0 <= j < i ==> (#[trigger] self.jobs@[j]).spec_id() != id,
            decreases self.jobs@.len() - i,
        {
            if self.jobs[i].id() == id {
                return Some(i);
            }
            i = i + 1;
        }
        None
    }

    /// Adds a job made from `config` and queues it; a job already known under
    /// the same identifier is replaced. Returns the new job's identifier.
    pub fn add_job(&mut self, config: JobConfig) -> (res: JobId)
        ensures
            forall|i: int| first_job_at(old(self).jobs@, res, i) ==> final(self).jobs@
                == old(self).jobs@.update(i, final(self).jobs@[i])
                && is_queued_new_job(final(self).jobs@[i], config, res),
            !has_job(old(self).jobs@, res) ==> final(self).jobs@ == old(self).jobs@.push(
                final(self).jobs@.last(),
            ) && is_queued_new_job(final(self).jobs@.last(), config, res),
            ids_unique(old(self).jobs@) ==> ids_unique(final(self).jobs@),
            final(self).job_queue@ == old(self).job_queue@.push(res),
            *final(self) == (ApplicationState {
                jobs: final(self).jobs,
                job_queue: final(self).job_queue,
                ..*old(self)
            }),
    {
        let mut job = Job::new(config);
        let id = job.id();
        job.queue();
        match self.job_position(id) {
            Some(i) => {
                self.jobs.set(i, job);
                proof {
                    if ids_unique(old(self).jobs@) {
                        lemma_new_job_keeps_ids(old(self).jobs@, self.jobs@, id, i as int);
                    }
                }
            },
            None => {
                self.jobs.push(job);
                proof {
                    if ids_unique(old(self).jobs@) {
                        lemma_new_job_keeps_ids(old(self).jobs@, self.jobs@, id, old(self).jobs@.len() as int);
                    }
                }
            },
        }
        self.job_queue.push(id);
        id
    }

    /// Applies an event to the first job with identifier `id`, if there is one.
    pub fn apply_job_event(&mut self, id: JobId, ev: JobEvent)
        ensures
            jobs_after_event(old(self).jobs@, final(self).jobs@, id, ev),
            ids_unique(old(self).jobs@) ==> ids_unique(final(self).jobs@),
            *final(self) == (ApplicationState { jobs: final(self).jobs, ..*old(self) }),
    {
        match self.job_position(id) {
            Some(i) => {
                let mut job = self.jobs.remove(i);
                let ghost before = job;
                match ev {
                    JobEvent::Start => job.start(),
                    JobEvent::Progress(p) => job.update_progress(p),
                    JobEvent::Complete(size) => job.complete(size),
                    JobEvent::Fail(e) => {
                        let fits = match job.status() {
                            JobStatus::Failed { retries, .. } => *retries < u32::MAX,
                            _ => true,
                        };
                        if fits {
                            job.fail(e);
                        }
                    },
                    JobEvent::Log(line) => job.add_log(line),
                    JobEvent::Cancel => job.cancel(),
                    JobEvent::SetDuration(d) => job.set_source_duration(d),
                }
                assert(event_applied(before, job, ev));
                self.jobs.insert(i, job);
                assert forall|k: int| 0 <= k < old(self).jobs@.len() implies if first_job_at(
                    old(self).jobs@,
                    id,
                    k,
                ) {
                    event_applied(old(self).jobs@[k], self.jobs@[k], ev)
                } else {
                    self.jobs@[k] == old(self).jobs@[k]
                } by {
                    if k != i {
                        assert(!first_job_at(old(self).jobs@, id, k)) by {
                            if first_job_at(old(self).jobs@, id, k) {
                                if k < i {
                                    assert(old(self).jobs@[k].spec_id() != id);
                                } else {
                                    assert(old(self).jobs@[i as int].spec_id() != id);
                                }
                            }
                        }
                    }
                }
                proof {
                    lemma_event_keeps_ids(old(self).jobs@, self.jobs@, id, ev);
                }
            },
            None => {
                assert forall|k: int| 0 <= k < old(self).jobs@.len() implies !first_job_at(
                    old(self).jobs@,
                    id,
                    k,
                ) by {
                    if first_job_at(old(self).jobs@, id, k) {
                        assert(old(self).jobs@[k].spec_id() == id);
                    }
                }
            },
        }
    }

    /// Queues again the first job with identifier `id` when it was cancelled
    /// or may still be retried; reports whether it did.
    pub fn requeue_job(&mut self, id: JobId) -> (res: bool)
        ensures
            final(self).jobs@.len() == old(self).jobs@.len(),
            !has_job(old(self).jobs@, id) ==> !res && final(self).jobs@ == old(self).jobs@,
            forall|i: int| #[trigger] first_job_at(old(self).jobs@, id, i) ==> {
                let before = old(self).jobs@[i];
                let after = final(self).jobs@[i];
                &&& final(self).jobs@ == old(self).jobs@.update(i, after)
                &&& res == can_requeue(before.spec_status(), before.spec_config().max_retries)
                &&& res ==> after.spec_status() is Queued
                &&& !res ==> after == before
                &&& after.same_but_status(before)
            },
            ids_unique(old(self).jobs@) ==> ids_unique(final(self).jobs@),
            *final(self) == (ApplicationState { jobs: final(self).jobs, ..*old(self) }),
    {
        match self.job_position(id) {
            Some(i) => {
                let mut job = self.jobs.remove(i);
                let r = job.requeue();
                self.jobs.insert(i, job);
                assert(self.jobs@ =~= old(self).jobs@.update(i as int, job));
                if !r {
                    assert(self.jobs@ =~= old(self).jobs@);
                }
                assert(forall|k: int| 0 <= k < self.jobs@.len() ==> #[trigger] self.jobs@[k].spec_id()
                    == old(self).jobs@[k].spec_id());
                assert forall|k: int| #[trigger] first_job_at(old(self).jobs@, id, k) implies k == i by {
                    if k < i {
                        assert(old(self).jobs@[k].spec_id() != id);
                    } else if k > i {
                        assert(old(self).jobs@[i as int].spec_id() != id);
                    }
                }
                r
            },
            None => false,
        }
    }

    /// Removes `id` from the list of running jobs.
    pub fn remove_active(&mut self, id: JobId)
        ensures
            final(self).active_jobs@ == ids_without(old(self).active_jobs@, id),
            *final(self) == (ApplicationState { active_jobs: final(self).active_jobs, ..*old(self) }),
    {
        let kept = without_id(&self.active_jobs, id);
        self.active_jobs = kept;
    }

    /// Removes `id` from the queue of waiting jobs.
    pub fn remove_queued(&mut self, id: JobId)
        ensures
            final(self).job_queue@ == ids_without(old(self).job_queue@, id),
            *final(self) == (ApplicationState { job_queue: final(self).job_queue, ..*old(self) }),
    {
        let kept = without_id(&self.job_queue, id);
        self.job_queue = kept;
    }

    /// Drops the jobs that have reached a terminal state.
    pub fn remove_finished_jobs(&mut self)
        ensures
            final(self).jobs@ == unfinished_jobs(old(self).jobs@),
            ids_unique(old(self).jobs@) ==> ids_unique(final(self).jobs@),
            *final(self) == (ApplicationState { jobs: final(self).jobs, ..*old(self) }),
    {
        proof {
            lemma_unfinished_keeps_ids(old(self).jobs@);
        }
        let mut rest: Vec<Job> = Vec::new();
        std::mem::swap(&mut rest, &mut self.jobs);
        let ghost all = rest@;
        let mut kept: Vec<Job> = Vec::new();
        let ghost mut n: int = 0;
        while rest.len() > 0
            invariant
                0 <= n <= all.len(),
                rest@ == all.skip(n),
                kept@ == unfinished_jobs(all.take(n)),
            decreases rest@.len(),
        {
            let j = rest.remove(0);
            assert(j == all[n]);
            assert(all.take(n + 1).drop_last() =~= all.take(n));
            if !j.status().is_terminal() {
                kept.push(j);
            }
            proof {
                n = n + 1;
            }
            assert(rest@ =~= all.skip(n));
        }
        assert(all.take(n) =~= all);
        self.jobs = kept;
    }

    /// Returns a copy of every job, in the order they were added.
    pub fn get_jobs(&self) -> (res: Vec<Job>)
        ensures
            res@.len() == self.jobs@.len(),
            forall|i: int| 0 <= i < res@.len() ==> (#[trigger] res@[i]).same_as(self.jobs@[i]),
    {
        let mut res: Vec<Job> = Vec::new();
        let mut i: usize = 0;
        while i < self.jobs.len()
            invariant
                i <= self.jobs@.len(),
                res@.len() == i,
                forall|k: int| 0 <= k < i ==> (#[trigger] res@[k]).same_as(self.jobs@[k]),
            decreases self.jobs@.len() - i,
        {
            res.push(self.jobs[i].clone());
            i = i + 1;
        }
        res
    }

    /// Returns a copy of the first job with identifier `id`.
    pub fn get_job(&self, id: JobId) -> (res: Option<Job>)
        ensures
            res is None <==> !has_job(self.jobs@, id),
            forall|i: int| first_job_at(self.jobs@, id, i) ==> (res matches Some(j) && j.same_as(self.jobs@[i])),
    {
        match self.job_position(id) {
            Some(i) => {
                proof {
                    assert forall|k: int| first_job_at(self.jobs@, id, k) implies k == i by {
                        if k < i {
                            assert(self.jobs@[k].spec_id() != id);
                        } else if k > i {
                            assert(self.jobs@[i as int].spec_id() != id);
                        }
                    }
                }
                Some(self.jobs[i].clone())
            },
            None => None,
        }
    }

    /// Moves `id` one place toward the front of the queue.
    pub fn move_job_up(&mut self, id: JobId)
        ensures
            final(self).job_queue@ == moved_up(old(self).job_queue@, id),
            *final(self) == (ApplicationState { job_queue: final(self).job_queue, ..*old(self) }),
    {
        match id_position(&self.job_queue, id) {
            Some(i) => {
                proof { lemma_first_index_unique(self.job_queue@, id, i as int); }
                if i > 0 {
                    let a = self.job_queue[i];
                    let b = self.job_queue[i - 1];
                    self.job_queue.set(i, b);
                    self.job_queue.set(i - 1, a);
                    assert(self.job_queue@ =~= swapped_ids(old(self).job_queue@, i as int, i - 1));
                }
            },
            None => {},
        }
    }

    /// Moves `id` one place toward the back of the queue.
    pub fn move_job_down(&mut self, id: JobId)
        ensures
            final(self).job_queue@ == moved_down(old(self).job_queue@, id),
            *final(self) == (ApplicationState { job_queue: final(self).job_queue, ..*old(self) }),
    {
        match id_position(&self.job_queue, id) {
            Some(i) => {
                proof { lemma_first_index_unique(self.job_queue@, id, i as int); }
                if i < self.job_queue.len() - 1 {
                    let a = self.job_queue[i];
                    let b = self.job_queue[i + 1];
                    self.job_queue.set(i, b);
                    self.job_queue.set(i + 1, a);
                    assert(self.job_queue@ =~= swapped_ids(old(self).job_queue@, i as int, i + 1));
                }
            },
            None => {},
        }
    }

    /// Returns the number of jobs waiting in the queue.
    pub fn pending_job_count(&self) -> (res: usize)
        ensures
            res == self.job_queue@.len(),
    {
        self.job_queue.len()
    }

    /// Returns the number of running jobs.
    pub fn active_job_count(&self) -> (res: usize)
        ensures
            res == self.active_jobs@.len(),
    {
        self.active_jobs.len()
    }

    /// Returns the number of jobs in a terminal state.
    pub fn completed_job_count(&self) -> (res: usize)
        ensures
            res == finished_count(self.jobs@),
    {
        let mut n: usize = 0;
        let mut i: usize = 0;
        while i < self.jobs.len()
            invariant
                i <= self.jobs@.len(),
                n == finished_count(self.jobs@.take(i as int)),
                n <= i,
            decreases self.jobs@.len() - i,
        {
            assert(self.jobs@.take(i + 1).drop_last() =~= self.jobs@.take(i as int));
            if self.jobs[i].status().is_terminal() {
                n = n + 1;
            }
            i = i + 1;
        }
        assert(self.jobs@.take(i as int) =~= self.jobs@);
        n
    }

    /// Shows a message in the status bar.
    pub fn set_status(&mut self, message: String)
        ensures
            *final(self) == (ApplicationState { status_message: Some(message), ..*old(self) }),
    {
        self.status_message = Some(message);
    }

    /// Clears the status bar.
    pub fn clear_status(&mut self)
        ensures
            *final(self) == (ApplicationState { status_message: None, ..*old(self) }),
    {
        self.status_message = None;
    }

    /// Shows another screen.
    pub fn switch_screen(&mut self, screen: Screen)
        ensures
            *final(self) == (ApplicationState { screen, ..*old(self) }),
    {
        self.screen = screen;
    }

    /// Stops the application.
    pub fn quit(&mut self)
        ensures
            *final(self) == (ApplicationState { running: false, ..*old(self) }),
    {
        self.running = false;
    }
}

/// The first position of `id` in `s` is the only one that is first.
proof fn lemma_first_index_unique(s: Seq<JobId>, id: JobId, i: int)
    requires
        first_index(s, id, i),
    ensures
        forall|k: int| first_index(s, id, k) ==> k == i,
        exists|k: int| first_index(s, id, k),
{
    assert forall|k: int| first_index(s, id, k) implies k == i by {
        if k < i {
            assert(s[k] != id);
        } else if k > i {
            assert(s[i] != id);
        }
    }
}

/// Returns the first position of `id` in `s`.
fn id_position(s: &Vec<JobId>, id: JobId) -> (res: Option<usize>)
    ensures
        res matches Some(i) ==> first_index(s@, id, i as int),
        res is None ==> forall|k: int| !first_index(s@, id, k),
{
    let mut i: usize = 0;
    while i < s.len()
        invariant
            i <= s@.len(),
            forall|j: int| 0 <= j < i ==> s@[j] != id,
        decreases s@.len() - i,
    {
        if s[i] == id {
            return Some(i);
        }
        i = i + 1;
    }
    proof {
        assert forall|k: int| !first_index(s@, id, k) by {
            if first_index(s@, id, k) {
                assert(s@[k] == id);
            }
        }
    }
    None
}

/// `s` without the identifier `id`.
fn without_id(s: &Vec<JobId>, id: JobId) -> (res: Vec<JobId>)
    ensures
        res@ == ids_without(s@, id),
{
    let mut res: Vec<JobId> = Vec::new();
    let mut i: usize = 0;
    while i < s.len()
        invariant
            i <= s@.len(),
            res@ == ids_without(s@.take(i as int), id),
        decreases s@.len() - i,
    {
        assert(s@.take(i + 1).drop_last() =~= s@.take(i as int));
        if s[i] != id {
            res.push(s[i]);
        }
        i = i + 1;
    }
    assert(s@.take(i as int) =~= s@);
    res
}


/// Moving a job one place toward the front of the queue and then one place
/// back restores the queue, when the job was in it and not already first.
pub proof fn law_move_up_then_down(q: Seq<JobId>, id: JobId, i: int)
    requires
        first_index(q, id, i),
        i > 0,
    ensures
        moved_down(moved_up(q, id), id) == q,
{
    lemma_first_index_unique(q, id, i);
    let up = swapped_ids(q, i, i - 1);
    assert(moved_up(q, id) == up);
    assert(first_index(up, id, i - 1));
    lemma_first_index_unique(up, id, i - 1);
    assert(moved_down(up, id) == swapped_ids(up, i - 1, i));
    assert(swapped_ids(up, i - 1, i) =~= q);
}

/// Moving a job keeps the same jobs in the queue, only their order changes.
pub proof fn law_move_keeps_jobs(q: Seq<JobId>, id: JobId)
    ensures
        moved_up(q, id).to_multiset() == q.to_multiset(),
        moved_down(q, id).to_multiset() == q.to_multiset(),
{
    if exists|i: int| first_index(q, id, i) && i > 0 {
        let i = choose|i: int| first_index(q, id, i);
        lemma_swap_keeps_multiset(q, i, i - 1);
    }
    if exists|i: int| first_index(q, id, i) && i + 1 < q.len() {
        let i = choose|i: int| first_index(q, id, i);
        lemma_swap_keeps_multiset(q, i, i + 1);
    }
}

/// Exchanging two entries keeps the multiset of entries.
proof fn lemma_swap_keeps_multiset(s: Seq<JobId>, i: int, j: int)
    requires
        0 <= i < s.len(),
        0 <= j < s.len(),
    ensures
        swapped_ids(s, i, j).to_multiset() == s.to_multiset(),
{
    broadcast use vstd::seq_lib::group_to_multiset_ensures;
    let a = s.update(i, s[j]);
    assert(a.to_multiset() == s.to_multiset().remove(s[i]).insert(s[j]));
    assert(a.update(j, s[i]).to_multiset() == a.to_multiset().remove(a[j]).insert(s[i]));
    if i == j {
        assert(swapped_ids(s, i, j) =~= s);
    } else {
        assert(a[j] == s[j]);
        assert(s.to_multiset().remove(s[i]).insert(s[j]).remove(s[j]).insert(s[i]) =~= s.to_multiset());
    }
}


/// The creation time and identifier of each job, in order.
pub open spec fn job_keys(jobs: Seq<Job>) -> Seq<(i64, JobId)> {
    jobs.map_values(|j: Job| (j.spec_created_at(), j.spec_id()))
}

/// Whether the keys run from the newest creation time to the oldest.
pub open spec fn newest_first(keys: Seq<(i64, JobId)>) -> bool {
    forall|a: int, b: int| 0 <= a < b < keys.len() ==> (#[trigger] keys[a]).0 >= (#[trigger] keys[b]).0
}

/// The identifiers of the keys, in order.
pub open spec fn ids_of(keys: Seq<(i64, JobId)>) -> Seq<JobId> {
    keys.map_values(|k: (i64, JobId)| k.1)
}

impl ApplicationState {
    /// Returns the identifiers of the jobs, the newest first; jobs created at
    /// the same time keep the order in which they were added.
    pub fn get_sorted_job_ids(&self) -> (res: Vec<JobId>)
        ensures
            exists|keys: Seq<(i64, JobId)>| #[trigger] newest_first(keys) && keys.to_multiset()
                == job_keys(self.jobs@).to_multiset() && res@ == ids_of(keys),
    {
        broadcast use vstd::seq_lib::group_to_multiset_ensures;

        let mut keys: Vec<(i64, JobId)> = Vec::new();
        let mut i: usize = 0;
        while i < self.jobs.len()
            invariant
                i <= self.jobs@.len(),
                newest_first(keys@),
                keys@.to_multiset() == job_keys(self.jobs@).take(i as int).to_multiset(),
            decreases self.jobs@.len() - i,
        {
            let k = (self.jobs[i].created_at(), self.jobs[i].id());
            assert(k == job_keys(self.jobs@)[i as int]);
            let mut p: usize = 0;
            while p < keys.len() && keys[p].0 >= k.0
                invariant
                    p <= keys@.len(),
                    forall|q: int| 0 <= q < p ==> (#[trigger] keys@[q]).0 >= k.0,
                decreases keys@.len() - p,
            {
                p = p + 1;
            }
            let ghost before = keys@;
            keys.insert(p, k);
            proof {
                assert(keys@ == before.insert(p as int, k));
                assert forall|a: int, b: int| 0 <= a < b < keys@.len() implies (#[trigger] keys@[a]).0
                    >= (#[trigger] keys@[b]).0 by {
                    if b < p {
                    } else if b == p {
                        assert(keys@[a] == before[a]);
                    } else if a == p {
                        assert(keys@[b] == before[b - 1]);
                        assert(before[p as int].0 < k.0);
                        if b - 1 > p {
                            assert(before[p as int].0 >= before[b - 1].0);
                        }
                    } else if a < p {
                        assert(keys@[a] == before[a] && keys@[b] == before[b - 1]);
                    } else {
                        assert(keys@[a] == before[a - 1] && keys@[b] == before[b - 1]);
                    }
                }
                assert(job_keys(self.jobs@).take(i + 1) =~= job_keys(self.jobs@).take(i as int).push(k));
                vstd::seq_lib::to_multiset_insert(before, p as int, k);
                vstd::seq_lib::to_multiset_build(job_keys(self.jobs@).take(i as int), k);
                assert(job_keys(self.jobs@).take(i as int).push(k).to_multiset()
                    == job_keys(self.jobs@).take(i as int).to_multiset().insert(k));
            }
            i = i + 1;
        }
        assert(job_keys(self.jobs@).take(i as int) =~= job_keys(self.jobs@));
        let mut res: Vec<JobId> = Vec::new();
        let mut j: usize = 0;
        while j < keys.len()
            invariant
                j <= keys@.len(),
                res@ == ids_of(keys@.take(j as int)),
            decreases keys@.len() - j,
        {
            res.push(keys[j].1);
            j = j + 1;
            assert(res@ =~= ids_of(keys@.take(j as int)));
        }
        assert(keys@.take(j as int) =~= keys@);
        assert(newest_first(keys@));
        res
    }
}

} // verus!
