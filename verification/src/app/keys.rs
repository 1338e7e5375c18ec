//! Which action a key press asks for, by what is on screen.

use crate::app::actions::{Action, NavigationTarget};
use crate::app::file_browser::FileBrowserTarget;
use crate::app::state::{ApplicationState, BuilderField, Screen};
use crate::domain::job::Job;
use crate::domain::{AudioCodec, ContainerFormat, EncodingPreset, VideoCodec};
use vstd::prelude::*;

verus! {

/// The keys the application reacts to; any other key is `Other`.
#[derive(Debug, Clone, Copy, PartialEq, Eq, Structural)]
pub enum Key {
    Char(char),
    Up,
    Down,
    Left,
    Right,
    Enter,
    Esc,
    Tab,
    BackTab,
    Backspace,
    Delete,
    Other,
}

/// The position of `x` in `all`, or 0 when it is not there.
#[verifier::opaque]
pub open spec fn position_or_first<T>(all: Seq<T>, x: T) -> int {
    if exists|i: int| 0 <= i < all.len() && all[i] == x {
        choose|i: int| 0 <= i < all.len() && all[i] == x && forall|j: int| 0 <= j < i ==> all[j] != x
    } else {
        0
    }
}

/// The entry after `x` in `all`, wrapping around (after the first when `x`
/// is not there).
pub open spec fn cycled_next<T>(all: Seq<T>, x: T) -> T {
    all[(position_or_first(all, x) + 1) % (all.len() as int)]
}

/// The entry before `x` in `all`, wrapping around (before the first when `x`
/// is not there).
pub open spec fn cycled_prev<T>(all: Seq<T>, x: T) -> T {
    all[(position_or_first(all, x) + all.len() - 1) % (all.len() as int)]
}

/// Keys in the file browser.
pub open spec fn browser_key(code: Key, target: FileBrowserTarget) -> Option<Action> {
    match code {
        Key::Up => Some(Action::FileBrowserSelectPrev),
        Key::Down => Some(Action::FileBrowserSelectNext),
        Key::Enter => Some(Action::FileBrowserConfirm),
        Key::Esc => Some(Action::FileBrowserCancel),
        Key::Backspace => Some(
            if target == FileBrowserTarget::Input {
                Action::FileBrowserFilterBackspace
            } else {
                Action::FileBrowserFilenameBackspace
            },
        ),
        Key::Tab => Some(Action::FileBrowserNavigateUp),
        Key::Char(c) => Some(
            if target == FileBrowserTarget::Input {
                Action::FileBrowserFilterAppend(c)
            } else {
                Action::FileBrowserFilenameAppend(c)
            },
        ),
        _ => None,
    }
}

/// Keys in the filter dialog, while custom text is edited or not.
pub open spec fn dialog_key(code: Key, editing: bool) -> Option<Action> {
    if editing {
        match code {
            Key::Enter => Some(Action::FilterDialogConfirm),
            Key::Esc => Some(Action::CloseFilterDialog),
            Key::Backspace => Some(Action::FilterDialogCustomBackspace),
            Key::Char(c) => Some(Action::FilterDialogCustomAppend(c)),
            _ => None,
        }
    } else {
        match code {
            Key::Tab | Key::Right => Some(Action::FilterDialogNextTab),
            Key::BackTab | Key::Left => Some(Action::FilterDialogPrevTab),
            Key::Up => Some(Action::FilterDialogSelectPrev),
            Key::Down => Some(Action::FilterDialogSelectNext),
            Key::Enter => Some(Action::FilterDialogConfirm),
            Key::Char('d') | Key::Delete => Some(Action::FilterDialogRemoveSelected),
            Key::Char('c') => Some(Action::FilterDialogClearAll),
            Key::Esc => Some(Action::CloseFilterDialog),
            _ => None,
        }
    }
}

/// Keys while a raw command is typed.
pub open spec fn raw_key(code: Key) -> Option<Action> {
    match code {
        Key::Esc => Some(Action::ToggleRawCommandMode),
        Key::Backspace => Some(Action::RawCommandBackspace),
        Key::Enter => Some(Action::BuildJob),
        Key::Char(c) => Some(Action::RawCommandAppend(c)),
        _ => None,
    }
}

/// Keys on the logs screen.
pub open spec fn logs_key(code: Key) -> Option<Action> {
    match code {
        Key::Char('t') => Some(Action::ToggleRawLogs),
        Key::Char('a') => Some(Action::ToggleAutoScroll),
        Key::Up => Some(Action::ScrollUp),
        Key::Down => Some(Action::ScrollDown),
        _ => None,
    }
}

/// Inspecting the chosen input, if there is one.
pub open spec fn inspect_input(s: ApplicationState) -> Option<Action> {
    match s.builder.input_path {
        Some(p) => Some(Action::InspectFile(p)),
        None => None,
    }
}

/// The quality one step up, at most 51, or one step down, at least 0.
pub open spec fn crf_step(crf: u8, up: bool) -> u8 {
    if up {
        if crf >= 51 { 51 } else { (crf + 1) as u8 }
    } else {
        if crf == 0 { 0 } else { (crf - 1) as u8 }
    }
}

/// Changing the value of the current builder field with Right (`up`) or Left.
pub open spec fn builder_cycle(s: ApplicationState, up: bool) -> Option<Action> {
    let b = s.builder;
    match b.current_field {
        BuilderField::Filters => Some(Action::OpenFilterDialog),
        BuilderField::VideoCodec => Some(Action::SetVideoCodec(
            if up { cycled_next(VideoCodec::spec_all(), b.video_codec) } else { cycled_prev(VideoCodec::spec_all(), b.video_codec) },
        )),
        BuilderField::AudioCodec => Some(Action::SetAudioCodec(
            if up { cycled_next(AudioCodec::spec_all(), b.audio_codec) } else { cycled_prev(AudioCodec::spec_all(), b.audio_codec) },
        )),
        BuilderField::Format => Some(Action::SetFormat(
            if up {
                cycled_next(ContainerFormat::spec_video_formats(), b.format)
            } else {
                cycled_prev(ContainerFormat::spec_video_formats(), b.format)
            },
        )),
        BuilderField::Quality => Some(Action::SetCrf(crf_step(b.crf, up))),
        BuilderField::Preset => Some(Action::SetPreset(
            if up { cycled_next(EncodingPreset::spec_all(), b.preset) } else { cycled_prev(EncodingPreset::spec_all(), b.preset) },
        )),
        _ => None,
    }
}

/// Keys on the builder screen.
pub open spec fn builder_key(code: Key, s: ApplicationState) -> Option<Action> {
    let b = s.builder;
    match code {
        Key::Tab | Key::Down => Some(Action::NextField),
        Key::BackTab | Key::Up => Some(Action::PrevField),
        Key::Char('r') => Some(Action::ToggleRawCommandMode),
        Key::Char('f') => Some(Action::OpenFilterDialog),
        Key::Enter => Some(match b.current_field {
            BuilderField::Input => Action::OpenFileBrowser(FileBrowserTarget::Input),
            BuilderField::Output => Action::OpenFileBrowser(FileBrowserTarget::Output),
            BuilderField::Filters => Action::OpenFilterDialog,
            _ => Action::BuildJob,
        }),
        Key::Char('b') => Some(Action::BuildJob),
        Key::Char('p') => if s.presets@.len() == 0 {
            None
        } else {
            let last = s.presets@.len() - 1;
            let idx = if b.preset_index <= last { b.preset_index as int } else { last };
            Some(Action::LoadPreset(s.presets@[idx].name))
        },
        Key::Right => builder_cycle(s, true),
        Key::Left => builder_cycle(s, false),
        Key::Char('i') => inspect_input(s),
        _ => None,
    }
}

/// The queue selection kept within the `n` jobs listed.
pub open spec fn queue_selection(sel: usize, n: nat) -> int {
    if sel <= n - 1 { sel as int } else { n - 1 }
}

/// Keys on the queue screen, given the jobs listed: the action asked for and
/// the selection afterwards.
pub open spec fn queue_key(code: Key, sel: usize, jobs: Seq<Job>) -> (Option<Action>, usize) {
    if jobs.len() == 0 {
        (None, sel)
    } else {
        let i = queue_selection(sel, jobs.len());
        let id = jobs[i].spec_id();
        match code {
            Key::Up => (None, (if i == 0 { 0 } else { i - 1 }) as usize),
            Key::Down => (None, (if i + 1 <= jobs.len() - 1 { i + 1 } else { jobs.len() - 1 }) as usize),
            Key::Char('s') => (Some(Action::StartQueue), sel),
            Key::Char('p') => (Some(Action::PauseQueue), sel),
            Key::Char('c') => (Some(Action::CancelJob(id)), sel),
            Key::Char('r') => (Some(Action::RetryJob(id)), sel),
            Key::Char('K') => (Some(Action::MoveJobUp(id)), sel),
            Key::Char('J') => (Some(Action::MoveJobDown(id)), sel),
            Key::Char('x') => (Some(Action::ClearCompleted), sel),
            _ => (None, sel),
        }
    }
}

/// The navigation keys that work on every screen.
pub open spec fn global_key(code: Key) -> Option<Action> {
    match code {
        Key::Char('1') => Some(Action::Navigate(NavigationTarget::Dashboard)),
        Key::Char('2') => Some(Action::Navigate(NavigationTarget::Builder)),
        Key::Char('3') => Some(Action::Navigate(NavigationTarget::Queue)),
        Key::Char('4') => Some(Action::Navigate(NavigationTarget::Logs)),
        Key::Char('5') => Some(Action::Navigate(NavigationTarget::Inspector)),
        Key::Char('?') => Some(Action::Navigate(NavigationTarget::Help)),
        Key::Char('q') | Key::Esc => Some(Action::Quit),
        _ => None,
    }
}

/// The action a key asks for, and the queue selection afterwards: the filter
/// dialog and the file browser take every key while open; then a raw command
/// being typed on the builder; then the navigation keys; then the keys of the
/// screen shown.
pub open spec fn key_action(code: Key, s: ApplicationState, jobs: Seq<Job>) -> (Option<Action>, usize) {
    let sel = s.queue_state.selected_index;
    if s.filter_dialog is Some {
        (dialog_key(code, s.filter_dialog.unwrap().editing_custom), sel)
    } else if s.file_browser is Some {
        (browser_key(code, s.file_browser.unwrap().target), sel)
    } else if s.screen == Screen::Builder && s.builder.raw_command_mode {
        (raw_key(code), sel)
    } else if global_key(code) is Some {
        (global_key(code), sel)
    } else {
        match s.screen {
            Screen::Builder => (builder_key(code, s), sel),
            Screen::Queue => queue_key(code, sel, jobs),
            Screen::Logs => (logs_key(code), sel),
            Screen::Inspector => (inspect_input_key(code, s), sel),
            _ => (None, sel),
        }
    }
}

/// On the queue screen, with no dialog or browser open and jobs listed, the
/// job keys act on the selected job (the last one when the selection lies
/// past the list): `K` moves it up, `J` moves it down, `c` cancels it and `r`
/// retries it; `s`, `p` and `x` start, pause and clear the queue. None of them
/// moves the selection.
pub proof fn law_queue_keys_act_on_selected_job(s: ApplicationState, jobs: Seq<Job>)
    requires
        s.filter_dialog is None,
        s.file_browser is None,
        s.screen == Screen::Queue,
        jobs.len() > 0,
    ensures
        ({
            let sel = s.queue_state.selected_index;
            let id = jobs[if sel < jobs.len() { sel as int } else { jobs.len() - 1 }].spec_id();
            &&& key_action(Key::Char('K'), s, jobs) == (Some(Action::MoveJobUp(id)), sel)
            &&& key_action(Key::Char('J'), s, jobs) == (Some(Action::MoveJobDown(id)), sel)
            &&& key_action(Key::Char('c'), s, jobs) == (Some(Action::CancelJob(id)), sel)
            &&& key_action(Key::Char('r'), s, jobs) == (Some(Action::RetryJob(id)), sel)
            &&& key_action(Key::Char('s'), s, jobs) == (Some(Action::StartQueue), sel)
            &&& key_action(Key::Char('p'), s, jobs) == (Some(Action::PauseQueue), sel)
            &&& key_action(Key::Char('x'), s, jobs) == (Some(Action::ClearCompleted), sel)
        }),
{
}

/// With no dialog or browser open and no raw command being typed, `1` to `5`
/// go to the dashboard, builder, queue, logs and inspector, `?` to the help,
/// and `q` or Esc quit, whatever the screen; the selection stays.
pub proof fn law_navigation_keys(s: ApplicationState, jobs: Seq<Job>)
    requires
        s.filter_dialog is None,
        s.file_browser is None,
        !(s.screen == Screen::Builder && s.builder.raw_command_mode),
    ensures
        ({
            let sel = s.queue_state.selected_index;
            &&& key_action(Key::Char('1'), s, jobs) == (Some(Action::Navigate(NavigationTarget::Dashboard)), sel)
            &&& key_action(Key::Char('2'), s, jobs) == (Some(Action::Navigate(NavigationTarget::Builder)), sel)
            &&& key_action(Key::Char('3'), s, jobs) == (Some(Action::Navigate(NavigationTarget::Queue)), sel)
            &&& key_action(Key::Char('4'), s, jobs) == (Some(Action::Navigate(NavigationTarget::Logs)), sel)
            &&& key_action(Key::Char('5'), s, jobs) == (Some(Action::Navigate(NavigationTarget::Inspector)), sel)
            &&& key_action(Key::Char('?'), s, jobs) == (Some(Action::Navigate(NavigationTarget::Help)), sel)
            &&& key_action(Key::Char('q'), s, jobs) == (Some(Action::Quit), sel)
            &&& key_action(Key::Esc, s, jobs) == (Some(Action::Quit), sel)
        }),
{
}

/// Keys on the inspector screen.
pub open spec fn inspect_input_key(code: Key, s: ApplicationState) -> Option<Action> {
    match code {
        Key::Char('i') => inspect_input(s),
        _ => None,
    }
}


/// Stepping forward or back by one, wrapping around `n` positions.
proof fn lemma_wrap(i: int, n: int)
    requires
        0 <= i < n,
    ensures
        (i + 1) % n == if i + 1 == n { 0 } else { i + 1 },
        (i + n - 1) % n == if i == 0 { n - 1 } else { i - 1 },
{
    if i + 1 == n {
        assert((i + 1) % n == 0) by (nonlinear_arith)
            requires i + 1 == n, n > 0;
    } else {
        assert((i + 1) % n == i + 1) by (nonlinear_arith)
            requires 0 <= i + 1 < n;
    }
    if i == 0 {
        assert((n - 1) % n == n - 1) by (nonlinear_arith)
            requires n > 0;
    } else {
        assert((i + n - 1) % n == i - 1) by (nonlinear_arith)
            requires 0 < i < n;
    }
}

/// The position found for `x` is the first one.
proof fn lemma_position_found<T>(all: Seq<T>, x: T, i: int)
    requires
        0 <= i < all.len(),
        all[i] == x,
        forall|j: int| 0 <= j < i ==> all[j] != x,
    ensures
        position_or_first(all, x) == i,
{
    reveal(position_or_first);
    let k = choose|k: int| 0 <= k < all.len() && all[k] == x && forall|j: int| 0 <= j < k ==> all[j] != x;
    if k < i {
        assert(all[k] != x);
    } else if k > i {
        assert(all[i] != x);
    }
}

/// The position of `x` among `all`, or 0.
fn video_position(all: &[VideoCodec], x: VideoCodec) -> (res: usize)
    ensures
        res as int == position_or_first(all@, x),
        all@.len() > 0 ==> res < all@.len(),
{
    let mut i: usize = 0;
    while i < all.len()
        invariant
            i <= all@.len(),
            forall|j: int| 0 <= j < i ==> all@[j] != x,
        decreases all@.len() - i,
    {
        if all[i] == x {
            proof {
                lemma_position_found(all@, x, i as int);
            }
            return i;
        }
        i = i + 1;
    }
    proof {
        reveal(position_or_first);
    }
    0
}

/// The entry after or before `x` among `all`, wrapping around.
fn video_cycled(all: &[VideoCodec], x: VideoCodec, up: bool) -> (res: VideoCodec)
    requires
        all@.len() > 0,
    ensures
        res == if up { cycled_next(all@, x) } else { cycled_prev(all@, x) },
{
    let n = all.len();
    let i = video_position(all, x);
    let j = if up {
        if i + 1 == n { 0 } else { i + 1 }
    } else {
        if i == 0 { n - 1 } else { i - 1 }
    };
    proof {
        lemma_wrap(i as int, n as int);
    }
    all[j]
}

/// The position of `x` among `all`, or 0.
fn audio_position(all: &[AudioCodec], x: AudioCodec) -> (res: usize)
    ensures
        res as int == position_or_first(all@, x),
        all@.len() > 0 ==> res < all@.len(),
{
    let mut i: usize = 0;
    while i < all.len()
        invariant
            i <= all@.len(),
            forall|j: int| 0 <= j < i ==> all@[j] != x,
        decreases all@.len() - i,
    {
        if all[i] == x {
            proof {
                lemma_position_found(all@, x, i as int);
            }
            return i;
        }
        i = i + 1;
    }
    proof {
        reveal(position_or_first);
    }
    0
}

/// The entry after or before `x` among `all`, wrapping around.
fn audio_cycled(all: &[AudioCodec], x: AudioCodec, up: bool) -> (res: AudioCodec)
    requires
        all@.len() > 0,
    ensures
        res == if up { cycled_next(all@, x) } else { cycled_prev(all@, x) },
{
    let n = all.len();
    let i = audio_position(all, x);
    let j = if up {
        if i + 1 == n { 0 } else { i + 1 }
    } else {
        if i == 0 { n - 1 } else { i - 1 }
    };
    proof {
        lemma_wrap(i as int, n as int);
    }
    all[j]
}

/// The position of `x` among `all`, or 0.
fn format_position(all: &[ContainerFormat], x: ContainerFormat) -> (res: usize)
    ensures
        res as int == position_or_first(all@, x),
        all@.len() > 0 ==> res < all@.len(),
{
    let mut i: usize = 0;
    while i < all.len()
        invariant
            i <= all@.len(),
            forall|j: int| 0 <= j < i ==> all@[j] != x,
        decreases all@.len() - i,
    {
        if all[i] == x {
            proof {
                lemma_position_found(all@, x, i as int);
            }
            return i;
        }
        i = i + 1;
    }
    proof {
        reveal(position_or_first);
    }
    0
}

/// The entry after or before `x` among `all`, wrapping around.
fn format_cycled(all: &[ContainerFormat], x: ContainerFormat, up: bool) -> (res: ContainerFormat)
    requires
        all@.len() > 0,
    ensures
        res == if up { cycled_next(all@, x) } else { cycled_prev(all@, x) },
{
    let n = all.len();
    let i = format_position(all, x);
    let j = if up {
        if i + 1 == n { 0 } else { i + 1 }
    } else {
        if i == 0 { n - 1 } else { i - 1 }
    };
    proof {
        lemma_wrap(i as int, n as int);
    }
    all[j]
}

/// The position of `x` among `all`, or 0.
fn preset_position(all: &[EncodingPreset], x: EncodingPreset) -> (res: usize)
    ensures
        res as int == position_or_first(all@, x),
        all@.len() > 0 ==> res < all@.len(),
{
    let mut i: usize = 0;
    while i < all.len()
        invariant
            i <= all@.len(),
            forall|j: int| 0 <= j < i ==> all@[j] != x,
        decreases all@.len() - i,
    {
        if all[i] == x {
            proof {
                lemma_position_found(all@, x, i as int);
            }
            return i;
        }
        i = i + 1;
    }
    proof {
        reveal(position_or_first);
    }
    0
}

/// The entry after or before `x` among `all`, wrapping around.
fn preset_cycled(all: &[EncodingPreset], x: EncodingPreset, up: bool) -> (res: EncodingPreset)
    requires
        all@.len() > 0,
    ensures
        res == if up { cycled_next(all@, x) } else { cycled_prev(all@, x) },
{
    let n = all.len();
    let i = preset_position(all, x);
    let j = if up {
        if i + 1 == n { 0 } else { i + 1 }
    } else {
        if i == 0 { n - 1 } else { i - 1 }
    };
    proof {
        lemma_wrap(i as int, n as int);
    }
    all[j]
}


/// Returns the action a key asks for in the file browser.
pub fn handle_file_browser_keys(code: Key, target: FileBrowserTarget) -> (res: Option<Action>)
    ensures
        res == browser_key(code, target),
{
    match target {
        FileBrowserTarget::Input => match code {
            Key::Up => Some(Action::FileBrowserSelectPrev),
            Key::Down => Some(Action::FileBrowserSelectNext),
            Key::Enter => Some(Action::FileBrowserConfirm),
            Key::Esc => Some(Action::FileBrowserCancel),
            Key::Backspace => Some(Action::FileBrowserFilterBackspace),
            Key::Tab => Some(Action::FileBrowserNavigateUp),
            Key::Char(c) => Some(Action::FileBrowserFilterAppend(c)),
            _ => None,
        },
        FileBrowserTarget::Output => match code {
            Key::Up => Some(Action::FileBrowserSelectPrev),
            Key::Down => Some(Action::FileBrowserSelectNext),
            Key::Enter => Some(Action::FileBrowserConfirm),
            Key::Esc => Some(Action::FileBrowserCancel),
            Key::Backspace => Some(Action::FileBrowserFilenameBackspace),
            Key::Tab => Some(Action::FileBrowserNavigateUp),
            Key::Char(c) => Some(Action::FileBrowserFilenameAppend(c)),
            _ => None,
        },
    }
}

/// Returns the action a key asks for in the filter dialog.
pub fn handle_filter_dialog_keys(code: Key, editing: bool) -> (res: Option<Action>)
    ensures
        res == dialog_key(code, editing),
{
    if editing {
        match code {
            Key::Enter => Some(Action::FilterDialogConfirm),
            Key::Esc => Some(Action::CloseFilterDialog),
            Key::Backspace => Some(Action::FilterDialogCustomBackspace),
            Key::Char(c) => Some(Action::FilterDialogCustomAppend(c)),
            _ => None,
        }
    } else {
        match code {
            Key::Tab | Key::Right => Some(Action::FilterDialogNextTab),
            Key::BackTab | Key::Left => Some(Action::FilterDialogPrevTab),
            Key::Up => Some(Action::FilterDialogSelectPrev),
            Key::Down => Some(Action::FilterDialogSelectNext),
            Key::Enter => Some(Action::FilterDialogConfirm),
            Key::Char('d') | Key::Delete => Some(Action::FilterDialogRemoveSelected),
            Key::Char('c') => Some(Action::FilterDialogClearAll),
            Key::Esc => Some(Action::CloseFilterDialog),
            _ => None,
        }
    }
}

/// Returns the action a key asks for while a raw command is typed; only
/// Escape leaves the mode, and Enter builds the job.
pub fn handle_raw_command_keys(code: Key) -> (res: Option<Action>)
    ensures
        res == raw_key(code),
{
    match code {
        Key::Esc => Some(Action::ToggleRawCommandMode),
        Key::Backspace => Some(Action::RawCommandBackspace),
        Key::Enter => Some(Action::BuildJob),
        Key::Char(c) => Some(Action::RawCommandAppend(c)),
        _ => None,
    }
}

/// Returns the action a key asks for on the logs screen.
pub fn handle_logs_keys(code: Key) -> (res: Option<Action>)
    ensures
        res == logs_key(code),
{
    match code {
        Key::Char('t') => Some(Action::ToggleRawLogs),
        Key::Char('a') => Some(Action::ToggleAutoScroll),
        Key::Up => Some(Action::ScrollUp),
        Key::Down => Some(Action::ScrollDown),
        _ => None,
    }
}

/// Returns the action a key asks for on the inspector screen.
pub fn handle_inspector_keys(code: Key, state: &ApplicationState) -> (res: Option<Action>)
    ensures
        res == inspect_input_key(code, *state),
{
    match code {
        Key::Char('i') => match &state.builder.input_path {
            Some(p) => Some(Action::InspectFile(p.clone())),
            None => None,
        },
        _ => None,
    }
}

/// Returns the action Right (`up`) or Left asks for on the builder screen.
fn builder_cycle_key(state: &ApplicationState, up: bool) -> (res: Option<Action>)
    ensures
        res == builder_cycle(*state, up),
{
    let b = &state.builder;
    match b.current_field {
        BuilderField::Filters => Some(Action::OpenFilterDialog),
        BuilderField::VideoCodec => Some(Action::SetVideoCodec(video_cycled(VideoCodec::all(), b.video_codec, up))),
        BuilderField::AudioCodec => Some(Action::SetAudioCodec(audio_cycled(AudioCodec::all(), b.audio_codec, up))),
        BuilderField::Format => Some(Action::SetFormat(format_cycled(ContainerFormat::video_formats(), b.format, up))),
        BuilderField::Quality => Some(Action::SetCrf(
            if up {
                if b.crf >= 51 { 51 } else { b.crf + 1 }
            } else {
                if b.crf == 0 { 0 } else { b.crf - 1 }
            },
        )),
        BuilderField::Preset => Some(Action::SetPreset(preset_cycled(EncodingPreset::all(), b.preset, up))),
        _ => None,
    }
}

/// Returns the action a key asks for on the builder screen.
pub fn handle_builder_keys(code: Key, state: &ApplicationState) -> (res: Option<Action>)
    ensures
        res == builder_key(code, *state),
{
    match code {
        Key::Tab | Key::Down => Some(Action::NextField),
        Key::BackTab | Key::Up => Some(Action::PrevField),
        Key::Char('r') => Some(Action::ToggleRawCommandMode),
        Key::Char('f') => Some(Action::OpenFilterDialog),
        Key::Enter => Some(match state.builder.current_field {
            BuilderField::Input => Action::OpenFileBrowser(FileBrowserTarget::Input),
            BuilderField::Output => Action::OpenFileBrowser(FileBrowserTarget::Output),
            BuilderField::Filters => Action::OpenFilterDialog,
            _ => Action::BuildJob,
        }),
        Key::Char('b') => Some(Action::BuildJob),
        Key::Char('p') => {
            let n = state.presets.len();
            if n == 0 {
                None
            } else {
                let idx = if state.builder.preset_index <= n - 1 { state.builder.preset_index } else { n - 1 };
                Some(Action::LoadPreset(state.presets[idx].name.clone()))
            }
        },
        Key::Right => builder_cycle_key(state, true),
        Key::Left => builder_cycle_key(state, false),
        Key::Char('i') => match &state.builder.input_path {
            Some(p) => Some(Action::InspectFile(p.clone())),
            None => None,
        },
        _ => None,
    }
}

/// Returns the action a key asks for on the queue screen, given the jobs
/// listed; Up and Down move the selection.
pub fn handle_queue_keys(code: Key, state: &mut ApplicationState, jobs: &[Job]) -> (res: Option<Action>)
    ensures
        res == queue_key(code, old(state).queue_state.selected_index, jobs@).0,
        *final(state) == (ApplicationState {
            queue_state: crate::app::state::QueueState {
                selected_index: queue_key(code, old(state).queue_state.selected_index, jobs@).1,
                ..old(state).queue_state
            },
            ..*old(state)
        }),
{
    let n = jobs.len();
    if n == 0 {
        return None;
    }
    let sel = if state.queue_state.selected_index <= n - 1 { state.queue_state.selected_index } else { n - 1 };
    let id = jobs[sel].id();
    match code {
        Key::Up => {
            state.queue_state.selected_index = if sel == 0 { 0 } else { sel - 1 };
            None
        },
        Key::Down => {
            state.queue_state.selected_index = if sel + 1 <= n - 1 { sel + 1 } else { n - 1 };
            None
        },
        Key::Char('s') => Some(Action::StartQueue),
        Key::Char('p') => Some(Action::PauseQueue),
        Key::Char('c') => Some(Action::CancelJob(id)),
        Key::Char('r') => Some(Action::RetryJob(id)),
        Key::Char('K') => Some(Action::MoveJobUp(id)),
        Key::Char('J') => Some(Action::MoveJobDown(id)),
        Key::Char('x') => Some(Action::ClearCompleted),
        _ => None,
    }
}

/// Returns the action a key asks for, given the jobs listed on the queue
/// screen; on that screen Up and Down move the selection.
pub fn handle_key_event(code: Key, state: &mut ApplicationState, jobs: &[Job]) -> (res: Option<Action>)
    ensures
        res == key_action(code, *old(state), jobs@).0,
        *final(state) == (ApplicationState {
            queue_state: crate::app::state::QueueState {
                selected_index: key_action(code, *old(state), jobs@).1,
                ..old(state).queue_state
            },
            ..*old(state)
        }),
{
    match &state.filter_dialog {
        Some(d) => return handle_filter_dialog_keys(code, d.editing_custom),
        None => {},
    }
    match &state.file_browser {
        Some(b) => return handle_file_browser_keys(code, b.target),
        None => {},
    }
    if state.screen == Screen::Builder && state.builder.raw_command_mode {
        return handle_raw_command_keys(code);
    }
    match code {
        Key::Char('1') => return Some(Action::Navigate(NavigationTarget::Dashboard)),
        Key::Char('2') => return Some(Action::Navigate(NavigationTarget::Builder)),
        Key::Char('3') => return Some(Action::Navigate(NavigationTarget::Queue)),
        Key::Char('4') => return Some(Action::Navigate(NavigationTarget::Logs)),
        Key::Char('5') => return Some(Action::Navigate(NavigationTarget::Inspector)),
        Key::Char('?') => return Some(Action::Navigate(NavigationTarget::Help)),
        Key::Char('q') | Key::Esc => return Some(Action::Quit),
        _ => {},
    }
    match state.screen {
        Screen::Builder => handle_builder_keys(code, state),
        Screen::Queue => handle_queue_keys(code, state, jobs),
        Screen::Logs => handle_logs_keys(code),
        Screen::Inspector => handle_inspector_keys(code, state),
        _ => None,
    }
}

} // verus!
