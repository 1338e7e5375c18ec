//! Jobs: their identity, configuration, progress, and the life cycle of their status.

use vstd::prelude::*;
use crate::domain::command::FFMpegCommand;
use crate::paths::{file_name_of, path_file_name};
use crate::quantity::FloatBits;
use crate::text::{extend_strings, nat_text, push_char, push_str, push_u64, string_of, views};

verus! {

/// Whether a 128-bit value is laid out as a random (version 4, RFC 4122
/// variant) UUID: the version field, bits 76 to 79, holds 4 and the variant
/// field, bits 62 and 63, holds binary 10.
pub open spec fn is_random_uuid(v: u128) -> bool {
    &&& (v as nat / 0x1_0000_0000_0000_0000_000) % 16 == 4
    &&& (v as nat / 0x4000_0000_0000_0000) % 4 == 2
}

/// A random 128-bit value: the bits of a version 4 UUID from `uuid::Uuid::new_v4`,
/// which masks random bits and sets the version and variant fields. Only that
/// layout is stated; the other 122 bits are random.
#[verifier::external_body]
fn random_uuid_bits() -> (res: u128)
    ensures
        is_random_uuid(res),
{
    uuid::Uuid::new_v4().as_u128()
}

/// The current time as milliseconds since the Unix epoch, from `chrono::Utc::now`.
/// `Utc::now` only returns a time at or after the epoch, so the value is not
/// negative; nothing more is stated of it, which is the time of the call.
#[verifier::external_body]
fn now_millis() -> (res: i64)
    ensures
        res >= 0,
{
    chrono::Utc::now().timestamp_millis()
}

/// The lowercase hexadecimal digit of a value below 16.
pub open spec fn hex_char(d: nat) -> char {
    if d < 10 {
        ((48 + d) as u8) as char
    } else {
        ((87 + d) as u8) as char
    }
}

/// The lowest `width` hexadecimal digits of `v`, most significant first.
pub open spec fn hex_text(v: nat, width: nat) -> Seq<char>
    decreases width,
{
    if width == 0 {
        seq![]
    } else {
        hex_text(v / 16, (width - 1) as nat).push(hex_char(v % 16))
    }
}

/// The identifier of a job: the 128 bits of a random UUID.
#[derive(Debug, Clone, Copy, PartialEq, Eq, Hash, Structural)]
pub struct JobId(pub u128);

impl JobId {
    /// A new random identifier: the bits of a random UUID, laid out as one.
    pub fn new() -> (res: JobId)
        ensures
            is_random_uuid(res.0),
    {
        JobId(random_uuid_bits())
    }

    /// Returns the bits of the identifier.
    pub fn inner(&self) -> (res: u128)
        ensures
            res == self.0,
    {
        self.0
    }

    /// The short form shown to users: the first eight characters of the
    /// hyphenated lowercase UUID, that is the top 32 bits in hexadecimal.
    pub open spec fn spec_short_text(self) -> Seq<char> {
        hex_text((self.0 as nat) / 0x1_0000_0000_0000_0000_0000_0000, 8)
    }

    /// Returns the short form of the identifier shown to users.
    pub fn short_text(&self) -> (res: String)
        ensures
            res@ == self.spec_short_text(),
    {
        let top: u128 = self.0 / 0x1_0000_0000_0000_0000_0000_0000;
        let mut s = String::new();
        push_hex(&mut s, top, 8);
        s
    }
}

fn push_hex(s: &mut String, v: u128, width: u32)
    ensures
        final(s)@ == old(s)@ + hex_text(v as nat, width as nat),
    decreases width,
{
    if width == 0 {
        assert(final(s)@ =~= old(s)@ + hex_text(v as nat, width as nat));
        return;
    }
    push_hex(s, v / 16, width - 1);
    let d: u8 = (v % 16) as u8;
    let c: char = if d < 10 { (48u8 + d) as char } else { (87u8 + d) as char };
    push_char(s, c);
    assert(final(s)@ =~= old(s)@ + hex_text(v as nat, width as nat));
}

impl Default for JobId {
    fn default() -> (res: JobId) {
        JobId::new()
    }
}

/// Job execution priority, lowest first.
#[derive(Debug, Clone, Copy, PartialEq, Eq, PartialOrd, Ord, Hash, Structural)]
pub enum JobPriority {
    Low,
    Normal,
    High,
    Critical,
}

impl JobPriority {
    /// The display name of the priority.
    pub open spec fn spec_display_name(self) -> Seq<char> {
        match self {
            JobPriority::Low => "Low"@,
            JobPriority::Normal => "Normal"@,
            JobPriority::High => "High"@,
            JobPriority::Critical => "Critical"@,
        }
    }

    /// Returns the display name of the priority.
    pub fn display_name(&self) -> (res: &'static str)
        ensures
            res@ == self.spec_display_name(),
    {
        match self {
            JobPriority::Low => "Low",
            JobPriority::Normal => "Normal",
            JobPriority::High => "High",
            JobPriority::Critical => "Critical",
        }
    }
}

impl Default for JobPriority {
    fn default() -> (res: Self)
        ensures
            res == JobPriority::Normal,
    {
        JobPriority::Normal
    }
}

/// Progress of a running job, as parsed from the encoder's output. The
/// fractional quantities are carried as the bits of double-precision values.
#[derive(Debug, Clone, Copy, PartialEq, Eq, Structural)]
pub struct JobProgress {
    pub frame: u64,
    pub fps: FloatBits,
    pub bitrate: Option<FloatBits>,
    pub total_size: u64,
    pub time_encoded: FloatBits,
    pub speed: FloatBits,
    pub percentage: FloatBits,
}

impl JobProgress {
    /// No progress yet: every quantity zero.
    pub open spec fn spec_zero() -> JobProgress {
        JobProgress {
            frame: 0,
            fps: FloatBits { bits: 0 },
            bitrate: None,
            total_size: 0,
            time_encoded: FloatBits { bits: 0 },
            speed: FloatBits { bits: 0 },
            percentage: FloatBits { bits: 0 },
        }
    }
}

impl Default for JobProgress {
    fn default() -> (res: Self)
        ensures
            res == JobProgress::spec_zero(),
    {
        JobProgress {
            frame: 0,
            fps: FloatBits::zero(),
            bitrate: None,
            total_size: 0,
            time_encoded: FloatBits::zero(),
            speed: FloatBits::zero(),
            percentage: FloatBits::zero(),
        }
    }
}

/// Two digits, with a leading zero below ten.
pub open spec fn two_digits(n: nat) -> Seq<char> {
    if n < 10 {
        seq!['0'] + nat_text(n)
    } else {
        nat_text(n)
    }
}

/// A number of seconds as `Hh MMm SSs`, `Mm SSs` or `Ss`, the largest unit first.
pub open spec fn duration_text(seconds: nat) -> Seq<char> {
    let h = seconds / 3600;
    let m = (seconds % 3600) / 60;
    let s = seconds % 60;
    if h > 0 {
        nat_text(h) + "h "@ + two_digits(m) + "m "@ + two_digits(s) + "s"@
    } else if m > 0 {
        nat_text(m) + "m "@ + two_digits(s) + "s"@
    } else {
        nat_text(s) + "s"@
    }
}

fn push_two_digits(s: &mut String, n: u64)
    ensures
        final(s)@ == old(s)@ + two_digits(n as nat),
{
    if n < 10 {
        push_char(s, '0');
    }
    push_u64(s, n);
    assert(final(s)@ =~= old(s)@ + two_digits(n as nat));
}

/// Formats a number of seconds for display, such as `1h 02m 03s`.
pub fn format_duration(seconds: u64) -> (res: String)
    ensures
        res@ == duration_text(seconds as nat),
{
    let hours = seconds / 3600;
    let minutes = (seconds % 3600) / 60;
    let secs = seconds % 60;
    let mut s = String::new();
    if hours > 0 {
        push_u64(&mut s, hours);
        push_str(&mut s, "h ");
        push_two_digits(&mut s, minutes);
        push_str(&mut s, "m ");
        push_two_digits(&mut s, secs);
        push_str(&mut s, "s");
    } else if minutes > 0 {
        push_u64(&mut s, minutes);
        push_str(&mut s, "m ");
        push_two_digits(&mut s, secs);
        push_str(&mut s, "s");
    } else {
        push_u64(&mut s, secs);
        push_str(&mut s, "s");
    }
    assert(s@ =~= duration_text(seconds as nat));
    s
}

} // verus!

verus! {

/// The status of a job. Times are milliseconds since the Unix epoch.
#[derive(Debug)]
pub enum JobStatus {
    Pending,
    Queued,
    Running { started_at: i64, progress: JobProgress },
    Paused { progress: JobProgress },
    Completed { started_at: i64, completed_at: i64, output_size: u64 },
    Failed { error: String, retries: u32 },
    Cancelled,
}

impl JobStatus {
    /// Whether the status is final: completed, failed or cancelled.
    pub open spec fn spec_is_terminal(self) -> bool {
        self is Completed || self is Failed || self is Cancelled
    }

    /// Returns whether the job is in a terminal state.
    pub fn is_terminal(&self) -> (res: bool)
        ensures
            res == self.spec_is_terminal(),
    {
        matches!(self, JobStatus::Completed { .. } | JobStatus::Failed { .. } | JobStatus::Cancelled)
    }

    /// Whether the job may be queued again: it failed or was cancelled.
    pub open spec fn spec_can_retry(self) -> bool {
        self is Failed || self is Cancelled
    }

    /// Returns whether the job is retryable.
    pub fn can_retry(&self) -> (res: bool)
        ensures
            res == self.spec_can_retry(),
    {
        matches!(self, JobStatus::Failed { .. } | JobStatus::Cancelled)
    }

    /// Returns whether the job is running.
    pub fn is_running(&self) -> (res: bool)
        ensures
            res == (*self is Running),
    {
        matches!(self, JobStatus::Running { .. })
    }

    /// The name of the status.
    pub open spec fn spec_name(self) -> Seq<char> {
        match self {
            JobStatus::Pending => "Pending"@,
            JobStatus::Queued => "Queued"@,
            JobStatus::Running { .. } => "Running"@,
            JobStatus::Paused { .. } => "Paused"@,
            JobStatus::Completed { .. } => "Completed"@,
            JobStatus::Failed { .. } => "Failed"@,
            JobStatus::Cancelled => "Cancelled"@,
        }
    }

    /// Returns the name of the status.
    pub fn name(&self) -> (res: &'static str)
        ensures
            res@ == self.spec_name(),
    {
        match self {
            JobStatus::Pending => "Pending",
            JobStatus::Queued => "Queued",
            JobStatus::Running { .. } => "Running",
            JobStatus::Paused { .. } => "Paused",
            JobStatus::Completed { .. } => "Completed",
            JobStatus::Failed { .. } => "Failed",
            JobStatus::Cancelled => "Cancelled",
        }
    }
}

impl Default for JobStatus {
    fn default() -> (res: Self)
        ensures
            res is Pending,
    {
        JobStatus::Pending
    }
}

impl Clone for JobStatus {
    fn clone(&self) -> (res: Self)
        ensures
            res == *self,
    {
        match self {
            JobStatus::Pending => JobStatus::Pending,
            JobStatus::Queued => JobStatus::Queued,
            JobStatus::Running { started_at, progress } => JobStatus::Running {
                started_at: *started_at,
                progress: *progress,
            },
            JobStatus::Paused { progress } => JobStatus::Paused { progress: *progress },
            JobStatus::Completed { started_at, completed_at, output_size } => JobStatus::Completed {
                started_at: *started_at,
                completed_at: *completed_at,
                output_size: *output_size,
            },
            JobStatus::Failed { error, retries } => JobStatus::Failed {
                error: error.clone(),
                retries: *retries,
            },
            JobStatus::Cancelled => JobStatus::Cancelled,
        }
    }
}

// ---------------------------------------------------------------------------
// The life cycle of a status, one spec function per event. `t` is the time at
// which the event happens.
// ---------------------------------------------------------------------------

/// Queueing: a pending job becomes queued; any other status stays.
pub open spec fn queued_status(s: JobStatus) -> JobStatus {
    if s is Pending { JobStatus::Queued } else { s }
}

/// Starting at `t`: a pending or queued job runs from `t` with no progress yet;
/// any other status stays.
pub open spec fn started_status(s: JobStatus, t: i64) -> JobStatus {
    if s is Pending || s is Queued {
        JobStatus::Running { started_at: t, progress: JobProgress::spec_zero() }
    } else {
        s
    }
}

/// A progress report: a running job takes the new progress; any other status stays.
pub open spec fn progressed_status(s: JobStatus, p: JobProgress) -> JobStatus {
    match s {
        JobStatus::Running { started_at, .. } => JobStatus::Running { started_at, progress: p },
        _ => s,
    }
}

/// Completion at `t` with an output size: a running job completes; any other status stays.
pub open spec fn completed_status(s: JobStatus, t: i64, size: u64) -> JobStatus {
    match s {
        JobStatus::Running { started_at, .. } => JobStatus::Completed {
            started_at,
            completed_at: t,
            output_size: size,
        },
        _ => s,
    }
}

/// The retry count a failure records: one more than the last failure's, or 0.
pub open spec fn failure_count(s: JobStatus) -> int {
    match s {
        JobStatus::Failed { retries, .. } => retries + 1,
        _ => 0,
    }
}

/// Cancelling: any status but a terminal one becomes cancelled.
pub open spec fn cancelled_status(s: JobStatus) -> JobStatus {
    if s.spec_is_terminal() { s } else { JobStatus::Cancelled }
}

/// Whether a job with this status and retry limit can be queued again: it was
/// cancelled, or it failed fewer times than the limit allows.
pub open spec fn can_requeue(s: JobStatus, max_retries: u32) -> bool {
    match s {
        JobStatus::Failed { retries, .. } => retries < max_retries,
        JobStatus::Cancelled => true,
        _ => false,
    }
}

/// Settings of a job.
#[derive(Debug)]
pub struct JobConfig {
    pub input_path: String,
    pub output_path: String,
    pub command: FFMpegCommand,
    pub priority: JobPriority,
    pub max_retries: u32,
}

impl JobConfig {
    /// Whether `other` holds the same paths, command and settings.
    pub open spec fn same_as(self, other: JobConfig) -> bool {
        &&& self.input_path == other.input_path
        &&& self.output_path == other.output_path
        &&& self.command.same_as(other.command)
        &&& self.priority == other.priority
        &&& self.max_retries == other.max_retries
    }

    /// A configuration with normal priority and up to three retries.
    pub fn new(input_path: String, output_path: String, command: FFMpegCommand) -> (res: Self)
        ensures
            res.input_path == input_path,
            res.output_path == output_path,
            res.command == command,
            res.priority == JobPriority::Normal,
            res.max_retries == 3,
    {
        JobConfig { input_path, output_path, command, priority: JobPriority::Normal, max_retries: 3 }
    }

    /// Sets the priority.
    pub fn with_priority(self, priority: JobPriority) -> (res: Self)
        ensures
            res == (JobConfig { priority, ..self }),
    {
        let mut c = self;
        c.priority = priority;
        c
    }

    /// Sets the retry limit.
    pub fn with_max_retries(self, retries: u32) -> (res: Self)
        ensures
            res == (JobConfig { max_retries: retries, ..self }),
    {
        let mut c = self;
        c.max_retries = retries;
        c
    }
}

/// The outcome of a finished job.
#[derive(Debug, Clone)]
pub struct JobResult {
    pub output_path: String,
    pub output_size: u64,
    pub duration_seconds: FloatBits,
    pub average_fps: FloatBits,
}

/// A transcoding job.
#[derive(Debug)]
pub struct Job {
    id: JobId,
    config: JobConfig,
    status: JobStatus,
    created_at: i64,
    log: Vec<String>,
    source_duration: Option<FloatBits>,
}

/// The last path component of a path, or `unknown` when it has none.
pub open spec fn name_or_unknown(path: Seq<char>) -> Seq<char> {
    match path_file_name(path) {
        Some(n) => n,
        None => "unknown"@,
    }
}

impl Job {
    /// The identifier of the job.
    pub closed spec fn spec_id(self) -> JobId {
        self.id
    }

    /// The settings of the job.
    pub closed spec fn spec_config(self) -> JobConfig {
        self.config
    }

    /// The status of the job.
    pub closed spec fn spec_status(self) -> JobStatus {
        self.status
    }

    /// The creation time of the job.
    pub closed spec fn spec_created_at(self) -> i64 {
        self.created_at
    }

    /// The log lines of the job.
    pub closed spec fn spec_log(self) -> Seq<String> {
        self.log@
    }

    /// The duration of the source, when known.
    pub closed spec fn spec_source_duration(self) -> Option<FloatBits> {
        self.source_duration
    }

    /// A new pending job with a random identifier, created now, with an empty log.
    pub fn new(config: JobConfig) -> (res: Self)
        ensures
            is_random_uuid(res.spec_id().0),
            res.spec_created_at() >= 0,
            res.spec_config() == config,
            res.spec_status() is Pending,
            res.spec_log().len() == 0,
            res.spec_source_duration().is_none(),
    {
        Job {
            id: JobId::new(),
            config,
            status: JobStatus::Pending,
            created_at: now_millis(),
            log: Vec::new(),
            source_duration: None,
        }
    }

    /// Returns the identifier.
    pub fn id(&self) -> (res: JobId)
        ensures
            res == self.spec_id(),
    {
        self.id
    }

    /// Returns the settings.
    pub fn config(&self) -> (res: &JobConfig)
        ensures
            *res == self.spec_config(),
    {
        &self.config
    }

    /// Returns the status.
    pub fn status(&self) -> (res: &JobStatus)
        ensures
            *res == self.spec_status(),
    {
        &self.status
    }

    /// Returns the creation time in milliseconds since the Unix epoch.
    pub fn created_at(&self) -> (res: i64)
        ensures
            res == self.spec_created_at(),
    {
        self.created_at
    }

    /// Returns the log lines.
    pub fn log(&self) -> (res: &[String])
        ensures
            res@ == self.spec_log(),
    {
        self.log.as_slice()
    }

    /// Returns the duration of the source, when known.
    pub fn source_duration(&self) -> (res: Option<FloatBits>)
        ensures
            res == self.spec_source_duration(),
    {
        self.source_duration
    }

    /// Records the duration of the source.
    pub fn set_source_duration(&mut self, duration: FloatBits)
        ensures
            final(self).spec_source_duration() == Some(duration),
            final(self).spec_id() == old(self).spec_id(),
            final(self).spec_config() == old(self).spec_config(),
            final(self).spec_status() == old(self).spec_status(),
            final(self).spec_created_at() == old(self).spec_created_at(),
            final(self).spec_log() == old(self).spec_log(),
    {
        self.source_duration = Some(duration);
    }

    /// Appends a log line.
    pub fn add_log(&mut self, line: String)
        ensures
            final(self).spec_log() == old(self).spec_log().push(line),
            final(self).spec_id() == old(self).spec_id(),
            final(self).spec_config() == old(self).spec_config(),
            final(self).spec_status() == old(self).spec_status(),
            final(self).spec_created_at() == old(self).spec_created_at(),
            final(self).spec_source_duration() == old(self).spec_source_duration(),
    {
        self.log.push(line);
    }

    /// Empties the log.
    pub fn clear_log(&mut self)
        ensures
            final(self).spec_log().len() == 0,
            final(self).spec_id() == old(self).spec_id(),
            final(self).spec_config() == old(self).spec_config(),
            final(self).spec_status() == old(self).spec_status(),
            final(self).spec_created_at() == old(self).spec_created_at(),
            final(self).spec_source_duration() == old(self).spec_source_duration(),
    {
        self.log.clear();
    }

    /// Whether only the status of the job differs between the two.
    pub open spec fn same_but_status(self, other: Job) -> bool {
        &&& self.spec_id() == other.spec_id()
        &&& self.spec_config() == other.spec_config()
        &&& self.spec_created_at() == other.spec_created_at()
        &&& self.spec_log() == other.spec_log()
        &&& self.spec_source_duration() == other.spec_source_duration()
    }

    /// Queues a pending job; any other status stays.
    pub fn queue(&mut self)
        ensures
            final(self).spec_status() == queued_status(old(self).spec_status()),
            final(self).same_but_status(*old(self)),
    {
        if matches!(self.status, JobStatus::Pending) {
            self.status = JobStatus::Queued;
        }
    }

    /// Starts a pending or queued job now; any other status stays.
    pub fn start(&mut self)
        ensures
            exists|t: i64| final(self).spec_status() == started_status(old(self).spec_status(), t),
            final(self).same_but_status(*old(self)),
    {
        let t = now_millis();
        if matches!(self.status, JobStatus::Queued | JobStatus::Pending) {
            self.status = JobStatus::Running { started_at: t, progress: JobProgress::default() };
        }
        assert(self.status == started_status(old(self).status, t));
    }

    /// Records progress of a running job; any other status stays.
    pub fn update_progress(&mut self, progress: JobProgress)
        ensures
            final(self).spec_status() == progressed_status(old(self).spec_status(), progress),
            final(self).same_but_status(*old(self)),
    {
        if let JobStatus::Running { started_at, .. } = self.status {
            self.status = JobStatus::Running { started_at, progress };
        }
    }

    /// Completes a running job now with the size of its output; any other status stays.
    pub fn complete(&mut self, output_size: u64)
        ensures
            exists|t: i64|
                final(self).spec_status() == completed_status(old(self).spec_status(), t, output_size),
            final(self).same_but_status(*old(self)),
    {
        let t = now_millis();
        if let JobStatus::Running { started_at, .. } = self.status {
            self.status = JobStatus::Completed { started_at, completed_at: t, output_size };
        }
        assert(self.status == completed_status(old(self).status, t, output_size));
    }

    /// Marks the job failed with an error, counting one more retry when it had
    /// already failed.
    pub fn fail(&mut self, error: String)
        requires
            failure_count(old(self).spec_status()) <= u32::MAX,
        ensures
            final(self).spec_status() == (JobStatus::Failed {
                error,
                retries: failure_count(old(self).spec_status()) as u32,
            }),
            final(self).same_but_status(*old(self)),
    {
        let retries = match &self.status {
            JobStatus::Failed { retries, .. } => *retries + 1,
            _ => 0,
        };
        self.status = JobStatus::Failed { error, retries };
    }

    /// Cancels a job that has not reached a terminal state.
    pub fn cancel(&mut self)
        ensures
            final(self).spec_status() == cancelled_status(old(self).spec_status()),
            final(self).same_but_status(*old(self)),
    {
        if !self.status.is_terminal() {
            self.status = JobStatus::Cancelled;
        }
    }

    /// Queues the job again when it was cancelled, or failed fewer times than
    /// its retry limit; reports whether it did.
    pub fn requeue(&mut self) -> (res: bool)
        ensures
            res == can_requeue(old(self).spec_status(), old(self).spec_config().max_retries),
            res ==> final(self).spec_status() is Queued,
            !res ==> *final(self) == *old(self),
            final(self).same_but_status(*old(self)),
    {
        if self.status.can_retry() {
            if let JobStatus::Failed { retries, .. } = &self.status {
                if *retries < self.config.max_retries {
                    self.status = JobStatus::Queued;
                    return true;
                }
            } else {
                self.status = JobStatus::Queued;
                return true;
            }
        }
        false
    }

    /// Returns whether the job can still be cancelled: it is not in a terminal state.
    pub fn can_cancel(&self) -> (res: bool)
        ensures
            res == !self.spec_status().spec_is_terminal(),
    {
        !self.status.is_terminal()
    }

    /// Returns the file name of the input, or `unknown`.
    pub fn input_name(&self) -> (res: String)
        ensures
            res@ == name_or_unknown(self.spec_config().input_path@),
    {
        match file_name_of(self.config.input_path.as_str()) {
            Some(n) => n,
            None => string_of("unknown"),
        }
    }

    /// Returns the file name of the output, or `unknown`.
    pub fn output_name(&self) -> (res: String)
        ensures
            res@ == name_or_unknown(self.spec_config().output_path@),
    {
        match file_name_of(self.config.output_path.as_str()) {
            Some(n) => n,
            None => string_of("unknown"),
        }
    }

    /// Returns the progress of a running or paused job.
    pub fn progress(&self) -> (res: Option<JobProgress>)
        ensures
            res == match self.spec_status() {
                JobStatus::Running { progress, .. } => Some(progress),
                JobStatus::Paused { progress } => Some(progress),
                _ => None,
            },
    {
        match &self.status {
            JobStatus::Running { progress, .. } => Some(*progress),
            JobStatus::Paused { progress } => Some(*progress),
            _ => None,
        }
    }
}

impl Clone for JobConfig {
    fn clone(&self) -> (res: Self)
        ensures
            res.same_as(*self),
    {
        JobConfig {
            input_path: self.input_path.clone(),
            output_path: self.output_path.clone(),
            command: self.command.clone(),
            priority: self.priority,
            max_retries: self.max_retries,
        }
    }
}

impl Job {
    /// Whether `other` is a copy of this job: the same identifier, settings,
    /// status, creation time, log and source duration.
    pub open spec fn same_as(self, other: Job) -> bool {
        &&& self.spec_id() == other.spec_id()
        &&& self.spec_config().same_as(other.spec_config())
        &&& self.spec_status() == other.spec_status()
        &&& self.spec_created_at() == other.spec_created_at()
        &&& views(self.spec_log()) == views(other.spec_log())
        &&& self.spec_source_duration() == other.spec_source_duration()
    }
}

impl Clone for Job {
    fn clone(&self) -> (res: Self)
        ensures
            res.same_as(*self),
    {
        let mut log: Vec<String> = Vec::new();
        extend_strings(&mut log, &self.log);
        assert(views(log@) =~= views(self.log@));
        Job {
            id: self.id,
            config: self.config.clone(),
            status: self.status.clone(),
            created_at: self.created_at,
            log,
            source_duration: self.source_duration,
        }
    }
}

/// A terminal status stays as it is under queueing, starting, progress,
/// completion and cancelling: only a failure or a requeue changes it.
pub proof fn law_terminal_status_is_stable(s: JobStatus, t: i64, p: JobProgress, size: u64)
    requires
        s.spec_is_terminal(),
    ensures
        queued_status(s) == s,
        started_status(s, t) == s,
        progressed_status(s, p) == s,
        completed_status(s, t, size) == s,
        cancelled_status(s) == s,
{
}

/// A job that is queued, started, then completed ends completed and terminal;
/// the normal life cycle from pending to completed.
pub proof fn law_normal_life_cycle(t1: i64, t2: i64, size: u64)
    ensures
        completed_status(started_status(queued_status(JobStatus::Pending), t1), t2, size) == (
        JobStatus::Completed { started_at: t1, completed_at: t2, output_size: size }),
        completed_status(started_status(queued_status(JobStatus::Pending), t1), t2, size).spec_is_terminal(),
{
}

/// Any job that fails may be queued again as long as its retry limit is above
/// the count it recorded: a first failure (count 0) can be retried under the
/// default limit of three.
pub proof fn law_failure_is_retryable(s: JobStatus, error: String, max_retries: u32)
    requires
        failure_count(s) < max_retries,
    ensures
        can_requeue(JobStatus::Failed { error, retries: failure_count(s) as u32 }, max_retries),
{
}

/// Cancelling twice is the same as cancelling once, and a cancelled job can be requeued.
pub proof fn law_cancel_idempotent(s: JobStatus, max_retries: u32)
    ensures
        cancelled_status(cancelled_status(s)) == cancelled_status(s),
        !s.spec_is_terminal() ==> can_requeue(cancelled_status(s), max_retries),
{
}

} // verus!
