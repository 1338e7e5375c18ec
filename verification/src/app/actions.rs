//! Navigation targets, the actions that drive the application, and the
//! outside work an action asks for.

use crate::app::file_browser::{DirEntry, FileBrowserTarget};
use crate::domain::{
    AudioCodec, ContainerFormat, EncodingPreset, Filter, JobId, JobProgress, MediaInfo,
    VideoCodec,
};
use vstd::prelude::*;

verus! {

/// Where a navigation action leads.
#[derive(Debug, Clone, Copy, PartialEq, Eq, Structural)]
pub enum NavigationTarget {
    Dashboard,
    Builder,
    Queue,
    Logs,
    Inspector,
    Help,
}

/// Why a directory listing was read for the file browser.
#[derive(Debug, Clone, Copy, PartialEq, Eq, Structural)]
pub enum ListingReason {
    /// The browser moved to the parent directory.
    NavigateUp,
    /// The browser moved to the parent directory when the filter was empty.
    FilterBackspace,
    /// The browser entered the confirmed directory.
    Confirm,
}

/// What the user, a running job or the outside work asks of the application.
/// Paths are held as text.
#[derive(Debug)]
pub enum Action {
    Navigate(NavigationTarget),
    NavigateBack,
    Quit,
    Tick,
    SetInput(String),
    SetOutput(String),
    SetVideoCodec(VideoCodec),
    SetAudioCodec(AudioCodec),
    SetFormat(ContainerFormat),
    SetCrf(u8),
    SetPreset(EncodingPreset),
    AddFilter(Filter),
    RemoveFilter(usize),
    LoadPreset(String),
    BuildJob,
    ToggleRawCommandMode,
    SetRawCommand(String),
    RawCommandAppend(char),
    RawCommandBackspace,
    OpenFileBrowser(FileBrowserTarget),
    FileBrowserNavigateUp,
    FileBrowserConfirm,
    FileBrowserCancel,
    FileBrowserSelectPrev,
    FileBrowserSelectNext,
    FileBrowserFilterAppend(char),
    FileBrowserFilterBackspace,
    FileBrowserFilenameAppend(char),
    FileBrowserFilenameBackspace,
    OpenFilterDialog,
    CloseFilterDialog,
    FilterDialogNextTab,
    FilterDialogPrevTab,
    FilterDialogSelectNext,
    FilterDialogSelectPrev,
    FilterDialogConfirm,
    FilterDialogRemoveSelected,
    FilterDialogClearAll,
    FilterDialogCustomAppend(char),
    FilterDialogCustomBackspace,
    StartQueue,
    PauseQueue,
    ClearCompleted,
    CancelJob(JobId),
    RetryJob(JobId),
    SelectJob(JobId),
    MoveJobUp(JobId),
    MoveJobDown(JobId),
    ToggleRawLogs,
    ToggleAutoScroll,
    ScrollUp,
    ScrollDown,
    ScrollToTop,
    ScrollToBottom,
    InspectFile(String),
    JobStarted(JobId),
    JobProgress(JobId, JobProgress),
    JobCompleted(JobId, u64),
    JobFailed(JobId, String),
    JobLogLine(JobId, String),
    NextField,
    PrevField,
    ConfirmSelection,
    CancelSelection,
    ShowStatus(String),
    ClearStatus,
    /// The file browser asked for by `Effect::OpenBrowser` was opened on a
    /// directory with this listing, or could not be, with the reason.
    BrowserOpened(FileBrowserTarget, Result<(String, Vec<DirEntry>), String>),
    /// The listing asked for by `Effect::ReadDirectory` was read, or could not be.
    DirectoryRead(ListingReason, Result<Vec<DirEntry>, String>),
    /// The input file asked for by `Effect::ProbeInput` was inspected, or could not be.
    InputProbed(String, Result<MediaInfo, String>),
    /// The file asked for by `Effect::Inspect` was inspected, or could not be.
    FileInspected(Result<MediaInfo, String>),
}

/// Outside work an action asks for. Work that has an outcome is answered by
/// the action named in its description.
#[derive(Debug)]
pub enum Effect {
    /// Open a file browser for `target` on `start` (the working directory
    /// when there is none, or its parent when it is not a directory); answered
    /// by `Action::BrowserOpened`.
    OpenBrowser { start: Option<String>, target: FileBrowserTarget },
    /// Read the listing of the open browser's directory; answered by
    /// `Action::DirectoryRead` with the reason.
    ReadDirectory(String, ListingReason),
    /// Inspect the chosen input file; answered by `Action::InputProbed`.
    ProbeInput(String),
    /// Inspect a file for the inspector screen; answered by `Action::FileInspected`.
    Inspect(String),
    /// Run the job's command; its progress and end come back as job actions.
    SpawnJob(JobId),
    /// Stop the job's run, if it runs.
    AbortTask(JobId),
    /// Forget the finished run of the job.
    ForgetTask(JobId),
}

} // verus!
