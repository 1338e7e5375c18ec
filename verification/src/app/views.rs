//! What the screens show, computed from the state: counts of jobs, the job
//! whose log is shown, and how its log lines are shown.

use crate::app::handlers::command_from_builder;
use crate::app::state::BuilderState;
use crate::domain::command::{CommandBuilder, FFMpegCommand};
use crate::domain::job::{Job, JobId};
use crate::text::{contains_str, occurs_in, push_str, string_of};
use vstd::prelude::*;

verus! {

/// How many jobs wait, run, completed and failed.
#[derive(Debug, Clone, Copy, PartialEq, Eq, Structural)]
pub struct JobCounts {
    pub pending: usize,
    pub active: usize,
    pub completed: usize,
    pub failed: usize,
}

/// The number of jobs of `s` that satisfy `p`.
pub open spec fn count_where(s: Seq<Job>, p: spec_fn(Job) -> bool) -> nat
    decreases s.len(),
{
    if s.len() == 0 {
        0
    } else {
        count_where(s.drop_last(), p) + if p(s.last()) { 1nat } else { 0nat }
    }
}

/// A count never exceeds the number of jobs.
proof fn lemma_count_bounded(s: Seq<Job>, p: spec_fn(Job) -> bool)
    ensures
        count_where(s, p) <= s.len(),
    decreases s.len(),
{
    if s.len() > 0 {
        lemma_count_bounded(s.drop_last(), p);
    }
}

/// Counts the jobs waiting (pending or queued), running, completed and failed.
pub fn count_jobs(jobs: &[Job]) -> (res: JobCounts)
    ensures
        res.pending == count_where(jobs@, |j: Job| j.spec_status() is Pending || j.spec_status() is Queued),
        res.active == count_where(jobs@, |j: Job| j.spec_status() is Running),
        res.completed == count_where(jobs@, |j: Job| j.spec_status() is Completed),
        res.failed == count_where(jobs@, |j: Job| j.spec_status() is Failed),
{
    let ghost waiting = |j: Job| j.spec_status() is Pending || j.spec_status() is Queued;
    let ghost running = |j: Job| j.spec_status() is Running;
    let ghost done = |j: Job| j.spec_status() is Completed;
    let ghost failed = |j: Job| j.spec_status() is Failed;
    let mut c = JobCounts { pending: 0, active: 0, completed: 0, failed: 0 };
    let mut i: usize = 0;
    while i < jobs.len()
        invariant
            i <= jobs@.len(),
            waiting == (|j: Job| j.spec_status() is Pending || j.spec_status() is Queued),
            running == (|j: Job| j.spec_status() is Running),
            done == (|j: Job| j.spec_status() is Completed),
            failed == (|j: Job| j.spec_status() is Failed),
            c.pending == count_where(jobs@.take(i as int), waiting),
            c.active == count_where(jobs@.take(i as int), running),
            c.completed == count_where(jobs@.take(i as int), done),
            c.failed == count_where(jobs@.take(i as int), failed),
        decreases jobs@.len() - i,
    {
        proof {
            assert(jobs@.take(i + 1).drop_last() =~= jobs@.take(i as int));
            lemma_count_bounded(jobs@.take(i as int), waiting);
            lemma_count_bounded(jobs@.take(i as int), running);
            lemma_count_bounded(jobs@.take(i as int), done);
            lemma_count_bounded(jobs@.take(i as int), failed);
        }
        match jobs[i].status() {
            crate::domain::JobStatus::Pending | crate::domain::JobStatus::Queued => c.pending = c.pending + 1,
            crate::domain::JobStatus::Running { .. } => c.active = c.active + 1,
            crate::domain::JobStatus::Completed { .. } => c.completed = c.completed + 1,
            crate::domain::JobStatus::Failed { .. } => c.failed = c.failed + 1,
            _ => {},
        }
        i = i + 1;
    }
    assert(jobs@.take(i as int) =~= jobs@);
    c
}

/// The job whose log is shown: the selected one if it is listed, else the
/// first listed.
pub open spec fn shown_job(jobs: Seq<Job>, selected: Option<JobId>) -> Option<int> {
    if exists|i: int| 0 <= i < jobs.len() && Some(jobs[i].spec_id()) == selected {
        Some(choose|i: int| 0 <= i < jobs.len() && Some(jobs[i].spec_id()) == selected
            && forall|j: int| 0 <= j < i ==> Some(jobs[j].spec_id()) != selected)
    } else if jobs.len() > 0 {
        Some(0)
    } else {
        None
    }
}

/// Returns the position of the job whose log is shown.
pub fn logs_job(jobs: &[Job], selected: Option<JobId>) -> (res: Option<usize>)
    ensures
        match res {
            Some(i) => shown_job(jobs@, selected) == Some(i as int),
            None => shown_job(jobs@, selected) is None,
        },
{
    let mut i: usize = 0;
    while i < jobs.len()
        invariant
            i <= jobs@.len(),
            forall|j: int| 0 <= j < i ==> Some(jobs@[j].spec_id()) != selected,
        decreases jobs@.len() - i,
    {
        if selected == Some(jobs[i].id()) {
            proof {
                let k = choose|k: int| 0 <= k < jobs@.len() && Some(jobs@[k].spec_id()) == selected
                    && forall|j: int| 0 <= j < k ==> Some(jobs@[j].spec_id()) != selected;
                if k < i {
                } else if k > i {
                    assert(Some(jobs@[i as int].spec_id()) == selected);
                }
            }
            return Some(i);
        }
        i = i + 1;
    }
    if jobs.len() > 0 {
        Some(0)
    } else {
        None
    }
}

/// How a log line is shown.
#[derive(Debug, Clone, Copy, PartialEq, Eq, Structural)]
pub enum LogLineKind {
    /// A line that reports an error.
    Error,
    /// A progress line.
    Progress,
    /// Any other line.
    Plain,
}

/// How a log line is shown in the raw view (every line) or the clean view
/// (progress and error lines only; `None` hides the line).
pub open spec fn log_line_kind(line: Seq<char>, raw: bool) -> Option<LogLineKind> {
    let error = occurs_in("Error"@, line) || occurs_in("error"@, line);
    let progress = occurs_in("frame="@, line) || occurs_in("time="@, line);
    if raw {
        Some(if error { LogLineKind::Error } else if progress { LogLineKind::Progress } else { LogLineKind::Plain })
    } else if progress || error {
        Some(if occurs_in("Error"@, line) { LogLineKind::Error } else { LogLineKind::Progress })
    } else {
        None
    }
}

/// Returns how a log line is shown.
pub fn classify_log_line(line: &str, raw: bool) -> (res: Option<LogLineKind>)
    ensures
        res == log_line_kind(line@, raw),
{
    let upper = contains_str(line, "Error");
    let error = upper || contains_str(line, "error");
    let progress = contains_str(line, "frame=") || contains_str(line, "time=");
    if raw {
        Some(if error { LogLineKind::Error } else if progress { LogLineKind::Progress } else { LogLineKind::Plain })
    } else if progress || error {
        Some(if upper { LogLineKind::Error } else { LogLineKind::Progress })
    } else {
        None
    }
}

/// The first log line shown: with auto-scroll, the last lines that fit in a
/// list of `height` rows inside its border; else the scroll position.
pub fn log_scroll(total: usize, height: usize, auto_scroll: bool, position: usize) -> (res: usize)
    requires
        auto_scroll ==> height >= 2,
    ensures
        res == if auto_scroll {
            if total >= height - 2 { (total - (height - 2)) as usize } else { 0 }
        } else {
            position
        },
{
    if auto_scroll {
        let room = height - 2;
        if total >= room { total - room } else { 0 }
    } else {
        position
    }
}

/// The input path the command preview shows: the chosen one, else `input.mp4`.
pub open spec fn preview_input(b: BuilderState) -> Seq<char> {
    match b.input_path {
        Some(p) => p@,
        None => "input.mp4"@,
    }
}

/// The output path the command preview shows: the chosen one, else `output.`
/// and the extension of the chosen format.
pub open spec fn preview_output(b: BuilderState) -> Seq<char> {
    match b.output_path {
        Some(p) => p@,
        None => "output."@ + b.format.spec_extension(),
    }
}

/// The command line the builder screen previews: the command made from the
/// codecs, format, quality, preset and filters chosen (raw mode aside), for
/// the preview's input and output paths.
pub fn preview_command(b: &BuilderState) -> (res: String)
    ensures
        exists|c: FFMpegCommand|
            command_from_builder(c, BuilderState { raw_command_mode: false, ..*b }, preview_input(*b), preview_output(*b))
            && res@ == #[trigger] c.spec_command_string(),
{
    let input = match &b.input_path {
        Some(p) => p.clone(),
        None => string_of("input.mp4"),
    };
    let output = match &b.output_path {
        Some(p) => p.clone(),
        None => {
            let mut o = string_of("output.");
            push_str(&mut o, b.format.extension());
            o
        },
    };
    let r = CommandBuilder::new()
        .input(input)
        .output(output)
        .video_codec(b.video_codec)
        .audio_codec(b.audio_codec)
        .format(b.format)
        .crf(b.crf)
        .preset(b.preset)
        .filters(b.filters.clone())
        .build();
    match r {
        Ok(c) => {
            assert(command_from_builder(c, BuilderState { raw_command_mode: false, ..*b }, preview_input(*b), preview_output(*b)));
            c.to_command_string()
        },
        Err(e) => {
            let mut m = string_of("Error: ");
            push_str(&mut m, e.message().as_str());
            m
        },
    }
}

} // verus!
