use ffmpeg_tui::app::{
    Action, ActionHandler, ApplicationState, BuilderField, DirEntry, Effect, FileBrowserTarget,
    FilterTab, ListingReason, NavigationTarget, Screen,
};
use ffmpeg_tui::domain::{
    AudioCodec, ContainerFormat, EncodingPreset, Filter, JobId, JobStatus, VideoCodec,
    VideoFilter,
};
use ffmpeg_tui::infra::{FFMpegExecutor, FFProbeExecutor};

fn new_state() -> ApplicationState {
    ApplicationState::new(FFMpegExecutor::new(), FFProbeExecutor::new())
}

fn handle(state: &mut ApplicationState, action: Action) -> Vec<Effect> {
    assert!(ActionHandler::can_handle(state));
    ActionHandler::handle(state, action)
}

fn status(state: &ApplicationState) -> String {
    state.status_message.clone().unwrap_or_default()
}

fn spawned(effects: &[Effect]) -> Vec<JobId> {
    effects
        .iter()
        .filter_map(|e| match e {
            Effect::SpawnJob(id) => Some(*id),
            _ => None,
        })
        .collect()
}

fn with_paths(state: &mut ApplicationState, input: &str, output: &str) {
    state.builder.input_path = Some(input.to_string());
    state.builder.output_path = Some(output.to_string());
}

#[test]
fn application_starts_on_the_dashboard() {
    let state = new_state();
    assert_eq!(state.screen, Screen::Dashboard);
    assert!(state.running);
    assert_eq!(state.max_concurrent_jobs, 2);
    assert_eq!(state.presets.len(), 13);
    assert!(state.logs_state.auto_scroll);
    assert_eq!(state.builder.crf, 23);
    assert_eq!(state.ffmpeg().binary_path, "ffmpeg");
    assert_eq!(state.ffprobe().binary_path, "ffprobe");
}

#[test]
fn navigation_and_quit() {
    let mut state = new_state();
    handle(&mut state, Action::Navigate(NavigationTarget::Queue));
    assert_eq!(state.screen, Screen::Queue);
    handle(&mut state, Action::NavigateBack);
    assert_eq!(state.screen, Screen::Dashboard);
    handle(&mut state, Action::Navigate(NavigationTarget::Help));
    assert_eq!(state.screen, Screen::Help);
    handle(&mut state, Action::Quit);
    assert!(!state.running);
}

#[test]
fn choosing_an_input_proposes_an_output_and_probes() {
    let mut state = new_state();
    let fx = handle(&mut state, Action::SetInput("/videos/clip.mov".to_string()));
    assert_eq!(state.builder.input_path.as_deref(), Some("/videos/clip.mov"));
    assert_eq!(state.builder.output_path.as_deref(), Some("/videos/clip_output.mp4"));
    assert!(matches!(fx.as_slice(), [Effect::ProbeInput(p)] if p == "/videos/clip.mov"));

    handle(&mut state, Action::SetFormat(ContainerFormat::Mkv));
    assert_eq!(state.builder.output_path.as_deref(), Some("/videos/clip_output.mkv"));

    handle(&mut state, Action::SetInput("/other/b.mp4".to_string()));
    assert_eq!(state.builder.output_path.as_deref(), Some("/videos/clip_output.mkv"));

    handle(
        &mut state,
        Action::InputProbed("/other/b.mp4".to_string(), Err("no such file".to_string())),
    );
    assert_eq!(status(&state), "Input file set (probe failed: no such file)");
}

#[test]
fn loading_a_preset_sets_the_builder() {
    let mut state = new_state();
    handle(&mut state, Action::LoadPreset("Max Compression".to_string()));
    assert_eq!(state.builder.video_codec, VideoCodec::H265);
    assert_eq!(state.builder.audio_codec, AudioCodec::Opus);
    assert_eq!(state.builder.format, ContainerFormat::Mkv);
    assert_eq!(state.builder.crf, 30);
    assert_eq!(state.builder.preset, EncodingPreset::Slow);
    assert_eq!(state.builder.preset_index, 1);
    assert_eq!(state.builder.selected_preset.as_deref(), Some("Max Compression"));
    assert_eq!(status(&state), "Loaded preset: Max Compression");

    handle(&mut state, Action::LoadPreset("No such preset".to_string()));
    assert_eq!(state.builder.preset_index, 1);
}

#[test]
fn building_without_paths_is_reported() {
    let mut state = new_state();
    let fx = handle(&mut state, Action::BuildJob);
    assert!(fx.is_empty());
    assert_eq!(status(&state), "Cannot build job: Input path missing");
    state.builder.input_path = Some("in.mp4".to_string());
    handle(&mut state, Action::BuildJob);
    assert_eq!(status(&state), "Cannot build job: Output path missing");
    assert!(state.jobs().is_empty());
}

#[test]
fn built_jobs_start_up_to_the_limit() {
    let mut state = new_state();
    with_paths(&mut state, "/in/a.mp4", "/out/a.mkv");
    handle(&mut state, Action::SetVideoCodec(VideoCodec::Vp9));
    let fx1 = handle(&mut state, Action::BuildJob);
    assert_eq!(state.screen, Screen::Queue);
    let first = state.jobs()[0].id();
    assert_eq!(spawned(&fx1), vec![first]);
    assert_eq!(status(&state), format!("Job queued: {}", first.short_text()));
    let args = state.jobs()[0].config().command.to_args();
    assert!(args.contains(&"libvpx-vp9".to_string()));
    assert!(matches!(state.jobs()[0].status(), JobStatus::Queued));

    let fx2 = handle(&mut state, Action::BuildJob);
    let second = state.jobs()[1].id();
    assert_eq!(spawned(&fx2), vec![second]);
    let fx3 = handle(&mut state, Action::BuildJob);
    let third = state.jobs()[2].id();
    assert!(spawned(&fx3).is_empty());
    assert_eq!(state.active_jobs(), &vec![first, second]);
    assert_eq!(state.job_queue(), &vec![third]);

    handle(&mut state, Action::JobStarted(first));
    assert!(state.jobs()[0].status().is_running());
    let fx4 = handle(&mut state, Action::JobCompleted(first, 2048));
    assert!(matches!(fx4[0], Effect::ForgetTask(id) if id == first));
    assert_eq!(spawned(&fx4), vec![third]);
    assert!(matches!(state.jobs()[0].status(), JobStatus::Completed { output_size: 2048, .. }));
    assert_eq!(status(&state), format!("Job {} completed successfully", first.short_text()));
    assert_eq!(state.active_jobs(), &vec![second, third]);
    assert_eq!(state.completed_job_count(), 1);
}

#[test]
fn a_paused_queue_starts_nothing() {
    let mut state = new_state();
    with_paths(&mut state, "a.mp4", "b.mp4");
    handle(&mut state, Action::PauseQueue);
    assert_eq!(status(&state), "Queue paused");
    let fx = handle(&mut state, Action::BuildJob);
    assert!(spawned(&fx).is_empty());
    assert!(state.active_jobs().is_empty());
    let fx = handle(&mut state, Action::StartQueue);
    assert_eq!(spawned(&fx).len(), 1);
    assert_eq!(status(&state), "Queue started");
}

#[test]
fn cancelled_jobs_leave_the_queue_and_can_be_retried() {
    let mut state = new_state();
    with_paths(&mut state, "a.mp4", "b.mp4");
    handle(&mut state, Action::PauseQueue);
    handle(&mut state, Action::BuildJob);
    let id = state.jobs()[0].id();
    let fx = handle(&mut state, Action::CancelJob(id));
    assert!(matches!(fx[0], Effect::AbortTask(x) if x == id));
    assert!(state.job_queue().is_empty());
    assert!(matches!(state.jobs()[0].status(), JobStatus::Cancelled));
    assert_eq!(status(&state), format!("Job {} cancelled", id.short_text()));

    let fx = handle(&mut state, Action::RetryJob(id));
    assert!(fx.is_empty());
    assert_eq!(state.job_queue(), &vec![id]);
    assert!(matches!(state.jobs()[0].status(), JobStatus::Queued));
    assert_eq!(status(&state), format!("Job {} requeued for retry", id.short_text()));

    let fx = handle(&mut state, Action::RetryJob(id));
    assert!(fx.is_empty());
    assert_eq!(status(&state), format!("Cannot retry job {}", id.short_text()));
}

#[test]
fn failed_runs_are_reported_and_finished_jobs_cleared() {
    let mut state = new_state();
    with_paths(&mut state, "a.mp4", "b.mp4");
    handle(&mut state, Action::BuildJob);
    let id = state.jobs()[0].id();
    handle(&mut state, Action::JobStarted(id));
    handle(&mut state, Action::JobLogLine(id, "frame=1".to_string()));
    let fx = handle(&mut state, Action::JobFailed(id, "exit 1".to_string()));
    assert!(matches!(fx[0], Effect::ForgetTask(x) if x == id));
    assert_eq!(status(&state), format!("Job {} failed: exit 1", id.short_text()));
    assert_eq!(state.jobs()[0].log(), &["frame=1".to_string()]);
    assert!(state.active_jobs().is_empty());

    handle(&mut state, Action::ClearCompleted);
    assert!(state.jobs().is_empty());
    assert_eq!(status(&state), "Cleared completed jobs");
}

#[test]
fn jobs_move_within_the_queue() {
    let mut state = new_state();
    with_paths(&mut state, "a.mp4", "b.mp4");
    handle(&mut state, Action::PauseQueue);
    for _ in 0..3 {
        handle(&mut state, Action::BuildJob);
    }
    let ids: Vec<JobId> = state.jobs().iter().map(|j| j.id()).collect();
    handle(&mut state, Action::MoveJobUp(ids[2]));
    assert_eq!(state.job_queue(), &vec![ids[0], ids[2], ids[1]]);
    handle(&mut state, Action::MoveJobDown(ids[2]));
    assert_eq!(state.job_queue(), &ids);
    handle(&mut state, Action::MoveJobUp(ids[0]));
    assert_eq!(state.job_queue(), &ids);
    handle(&mut state, Action::MoveJobDown(ids[2]));
    assert_eq!(state.job_queue(), &ids);
    let sorted = state.get_sorted_job_ids();
    assert_eq!(sorted.len(), 3);
    for id in &ids {
        assert!(sorted.contains(id));
    }
}

#[test]
fn raw_commands_are_split_into_words() {
    let mut state = new_state();
    with_paths(&mut state, "in.mp4", "out.mp4");
    handle(&mut state, Action::ToggleRawCommandMode);
    for c in r#"-ss 5 -metadata title="My Movie""#.chars() {
        handle(&mut state, Action::RawCommandAppend(c));
    }
    handle(&mut state, Action::BuildJob);
    let command = &state.jobs()[0].config().command;
    assert_eq!(command.raw_args, vec!["-ss", "5", "-metadata", "title=My Movie"]);
    let args = command.to_args();
    assert!(args.ends_with(&[
        "-ss".to_string(),
        "5".to_string(),
        "-metadata".to_string(),
        "title=My Movie".to_string(),
        "out.mp4".to_string()
    ]) || args.contains(&"title=My Movie".to_string()));

    handle(&mut state, Action::SetRawCommand("-vf \"scale=1:1".to_string()));
    handle(&mut state, Action::BuildJob);
    assert!(state.jobs()[1].config().command.raw_args.is_empty());
}

#[test]
fn filter_dialog_adds_and_removes_filters() {
    let mut state = new_state();
    handle(&mut state, Action::OpenFilterDialog);
    handle(&mut state, Action::FilterDialogConfirm);
    assert_eq!(state.builder.filters.video_filters().len(), 1);
    assert_eq!(status(&state), "Added video filter: Scale 1080p");

    for _ in 0..14 {
        handle(&mut state, Action::FilterDialogSelectNext);
    }
    assert_eq!(state.filter_dialog.as_ref().unwrap().selected_index, 14);
    handle(&mut state, Action::FilterDialogConfirm);
    assert!(state.filter_dialog.as_ref().unwrap().editing_custom);
    assert_eq!(status(&state), "Type custom video filter and press Enter");
    for c in "hflip".chars() {
        handle(&mut state, Action::FilterDialogCustomAppend(c));
    }
    handle(&mut state, Action::FilterDialogConfirm);
    assert_eq!(status(&state), "Added custom video filter: hflip");
    assert_eq!(state.builder.filters.video_filter_string().as_deref(), Some("scale=1920:1080,hflip"));

    handle(&mut state, Action::FilterDialogNextTab);
    handle(&mut state, Action::FilterDialogConfirm);
    assert_eq!(state.builder.filters.audio_filters().len(), 1);
    handle(&mut state, Action::FilterDialogNextTab);
    assert_eq!(state.filter_dialog.as_ref().unwrap().current_tab, FilterTab::Active);
    handle(&mut state, Action::FilterDialogSelectPrev);
    assert_eq!(state.filter_dialog.as_ref().unwrap().selected_index, 2);
    handle(&mut state, Action::FilterDialogRemoveSelected);
    assert_eq!(status(&state), "Removed audio filter");
    assert_eq!(state.filter_dialog.as_ref().unwrap().selected_index, 1);
    handle(&mut state, Action::FilterDialogConfirm);
    assert_eq!(status(&state), "Removed video filter");
    handle(&mut state, Action::FilterDialogClearAll);
    assert!(state.builder.filters.is_empty());
    handle(&mut state, Action::CloseFilterDialog);
    assert!(state.filter_dialog.is_none());

    handle(&mut state, Action::AddFilter(Filter::Video(VideoFilter::Deinterlace)));
    handle(&mut state, Action::RemoveFilter(0));
    assert!(state.builder.filters.is_empty());
}

fn entry(name: &str, dir: bool) -> DirEntry {
    DirEntry { name: name.to_string(), path: format!("/media/{name}"), is_dir: dir, size: 10 }
}

#[test]
fn file_browser_round_trip() {
    let mut state = new_state();
    state.builder.input_path = Some("/media/movie.mkv".to_string());
    let fx = handle(&mut state, Action::OpenFileBrowser(FileBrowserTarget::Output));
    assert!(matches!(&fx[0], Effect::OpenBrowser { start: Some(d), target: FileBrowserTarget::Output } if d == "/media"));

    handle(
        &mut state,
        Action::BrowserOpened(
            FileBrowserTarget::Output,
            Ok(("/media".to_string(), vec![entry("sub", true), entry(".hidden", false), entry("a.mp4", false)])),
        ),
    );
    let browser = state.file_browser.as_ref().unwrap();
    assert_eq!(browser.output_filename, "movie_output");
    assert_eq!(browser.output_extension, "mp4");
    assert_eq!(browser.entries.len(), 2);

    let fx = handle(&mut state, Action::FileBrowserConfirm);
    assert!(matches!(&fx[0], Effect::ReadDirectory(d, ListingReason::Confirm) if d == "/media/sub"));
    handle(&mut state, Action::DirectoryRead(ListingReason::Confirm, Ok(vec![])));
    assert!(state.file_browser.as_ref().unwrap().entries.is_empty());

    let fx = handle(&mut state, Action::FileBrowserConfirm);
    assert!(fx.is_empty());
    assert!(state.file_browser.is_none());
    assert_eq!(state.builder.output_path.as_deref(), Some("/media/sub/movie_output.mp4"));
    assert_eq!(status(&state), "Output set: movie_output.mp4");

    handle(
        &mut state,
        Action::BrowserOpened(FileBrowserTarget::Input, Err("denied".to_string())),
    );
    assert_eq!(status(&state), "Cannot open directory: denied");
}

#[test]
fn logs_and_fields_respond() {
    let mut state = new_state();
    handle(&mut state, Action::ScrollUp);
    assert_eq!(state.logs_state.scroll_position, 0);
    handle(&mut state, Action::ScrollDown);
    handle(&mut state, Action::ScrollDown);
    assert_eq!(state.logs_state.scroll_position, 2);
    handle(&mut state, Action::ToggleAutoScroll);
    assert!(!state.logs_state.auto_scroll);
    handle(&mut state, Action::ScrollToBottom);
    assert!(state.logs_state.auto_scroll);
    handle(&mut state, Action::PrevField);
    assert_eq!(state.builder.current_field, BuilderField::Filters);
    handle(&mut state, Action::NextField);
    assert_eq!(state.builder.current_field, BuilderField::Input);
    handle(&mut state, Action::ShowStatus("hello".to_string()));
    assert_eq!(status(&state), "hello");
    handle(&mut state, Action::ClearStatus);
    assert!(state.status_message.is_none());

    let fx = handle(&mut state, Action::InspectFile("/x.mp4".to_string()));
    assert_eq!(state.screen, Screen::Inspector);
    assert!(state.inspector.loading);
    assert!(matches!(fx.as_slice(), [Effect::Inspect(p)] if p == "/x.mp4"));
    handle(&mut state, Action::FileInspected(Err("bad".to_string())));
    assert!(!state.inspector.loading);
    assert_eq!(state.inspector.error.as_deref(), Some("bad"));
    assert_eq!(status(&state), "Inspection failed");
}
