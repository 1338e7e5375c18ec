use ffmpeg_tui::app::{
    DirEntry, FileBrowserState, FileBrowserTarget, FilterDialogState, FilterTab, Navigation,
};

#[test]
fn format_size_display() {
    assert_eq!(FileBrowserState::format_size(500), "500 B");
    assert_eq!(FileBrowserState::format_size(1024), "1.0 KB");
    assert_eq!(FileBrowserState::format_size(1_048_576), "1.0 MB");
    assert_eq!(FileBrowserState::format_size(1_073_741_824), "1.0 GB");
}

fn float_size_text(size: u64) -> String {
    const KB: u64 = 1024;
    const MB: u64 = 1024 * KB;
    const GB: u64 = 1024 * MB;
    if size >= GB {
        format!("{:.1} GB", size as f64 / GB as f64)
    } else if size >= MB {
        format!("{:.1} MB", size as f64 / MB as f64)
    } else if size >= KB {
        format!("{:.1} KB", size as f64 / KB as f64)
    } else {
        format!("{size} B")
    }
}

#[test]
fn format_size_agrees_with_float_rendering() {
    let mut sizes: Vec<u64> = vec![0, 1, 1023, 1024, 1075, 1126, 1280, 1536, 1177, 10239, 1048575];
    for k in 0..2000u64 {
        sizes.push(1024 + k * 37);
        sizes.push(1_048_576 + k * 52_429);
        sizes.push(1_073_741_824 + k * 53_687_091);
    }
    sizes.push(u64::MAX);
    sizes.push(u64::MAX - 1024);
    sizes.push((1u64 << 53) + 1);
    sizes.push((1u64 << 60) + (1u64 << 7) + 1);
    sizes.push(0x1234_5678_9abc_def1);
    for size in sizes {
        assert_eq!(FileBrowserState::format_size(size), float_size_text(size), "size {size}");
    }
}

fn entry(name: &str, is_dir: bool) -> DirEntry {
    DirEntry { name: name.to_string(), path: format!("/media/{name}"), is_dir, size: 10 }
}

fn sample_browser() -> FileBrowserState {
    FileBrowserState::with_listing(
        "/media".to_string(),
        FileBrowserTarget::Output,
        "mp4",
        vec![
            entry("zeta.mkv", false),
            entry(".hidden", false),
            entry("Clips", true),
            entry("alpha.mp4", false),
            entry("archive", true),
        ],
    )
}

#[test]
fn listing_is_sorted_with_directories_first_and_hidden_entries_dropped() {
    let browser = sample_browser();
    let names: Vec<&str> = browser.entries.iter().map(|e| e.name.as_str()).collect();
    assert_eq!(names, vec!["archive", "Clips", "alpha.mp4", "zeta.mkv"]);
    assert_eq!(browser.visible_count(), 4);
    assert_eq!(browser.selected_index, 0);
}

#[test]
fn listing_keeps_the_order_of_entries_that_sort_alike() {
    let browser = FileBrowserState::with_listing(
        "/media".to_string(),
        FileBrowserTarget::Input,
        "mp4",
        vec![
            entry("readme", false),
            entry("Notes", true),
            entry("README", false),
            entry("notes", true),
            entry("Readme", false),
        ],
    );
    let names: Vec<&str> = browser.entries.iter().map(|e| e.name.as_str()).collect();
    assert_eq!(names, vec!["Notes", "notes", "readme", "README", "Readme"]);
}

#[test]
fn filter_narrows_and_restores_the_listing() {
    let mut browser = sample_browser();
    browser.select_next();
    browser.select_next();
    browser.select_next();
    assert_eq!(browser.selected_index, 3);
    browser.filter_push('A');
    // "archive", "alpha.mp4" and "zeta.mkv" hold an 'a'; "Clips" does not.
    assert_eq!(browser.visible_count(), 3);
    assert_eq!(browser.selected_index, 2);
    browser.filter_push('r');
    assert_eq!(browser.visible_count(), 1);
    assert_eq!(browser.selected_index, 0);
    assert_eq!(browser.selected_entry().unwrap().name, "archive");
    browser.filter_pop();
    browser.filter_pop();
    assert_eq!(browser.visible_count(), 4);
    browser.filter_pop();
    assert!(browser.filter_text.is_empty());
}

#[test]
fn selection_stays_within_the_listing() {
    let mut browser = sample_browser();
    browser.select_prev();
    assert_eq!(browser.selected_index, 0);
    for _ in 0..10 {
        browser.select_next();
    }
    assert_eq!(browser.selected_index, 3);
}

#[test]
fn output_full_path_builds_correctly() {
    let mut browser = sample_browser();
    assert!(browser.output_full_path().is_none());
    browser.output_filename = "my_video".to_string();
    let path = browser.output_full_path().unwrap();
    assert!(path.ends_with("my_video.mp4"));
    assert_eq!(path, "/media/my_video.mp4");
    browser.filename_pop();
    browser.filename_push('X');
    assert_eq!(browser.output_full_path().unwrap(), "/media/my_videX.mp4");
}

#[test]
fn navigation_enters_directories_and_selects_files() {
    let mut browser = sample_browser();
    match browser.navigate_into(3) {
        Navigation::Selected(p) => assert_eq!(p, "/media/zeta.mkv"),
        other => panic!("unexpected {other:?}"),
    }
    assert!(matches!(browser.navigate_into(9), Navigation::Stay));
    browser.filter_push('c');
    assert!(matches!(browser.navigate_into(0), Navigation::Entered));
    assert_eq!(browser.current_dir, "/media/archive");
    assert!(browser.filter_text.is_empty());
    assert!(browser.navigate_up());
    assert_eq!(browser.current_dir, "/media");
    assert!(browser.navigate_up());
    assert_eq!(browser.current_dir, "/");
    assert!(!browser.navigate_up());
}

#[test]
fn confirm_output_enters_directories_or_builds_the_path() {
    let mut browser = sample_browser();
    assert!(matches!(browser.confirm_output(), Navigation::Entered));
    let mut browser = sample_browser();
    browser.select_next();
    browser.select_next();
    assert!(matches!(browser.confirm_output(), Navigation::Stay));
    browser.filename_push('o');
    match browser.confirm_output() {
        Navigation::Selected(p) => assert_eq!(p, "/media/o.mp4"),
        other => panic!("unexpected {other:?}"),
    }
}

#[test]
fn test_filter_dialog_tab_navigation() {
    let mut dlg = FilterDialogState::new();
    assert_eq!(dlg.current_tab, FilterTab::Video);

    dlg.next_tab();
    assert_eq!(dlg.current_tab, FilterTab::Audio);

    dlg.next_tab();
    assert_eq!(dlg.current_tab, FilterTab::Active);

    dlg.next_tab();
    assert_eq!(dlg.current_tab, FilterTab::Video);

    dlg.prev_tab();
    assert_eq!(dlg.current_tab, FilterTab::Active);
}

#[test]
fn test_filter_dialog_selection() {
    let mut dlg = FilterDialogState::new();
    assert_eq!(dlg.selected_index, 0);

    dlg.select_next(10);
    assert_eq!(dlg.selected_index, 1);

    dlg.select_prev(10);
    assert_eq!(dlg.selected_index, 0);

    dlg.select_prev(10);
    assert_eq!(dlg.selected_index, 9);
}

#[test]
fn test_filter_dialog_custom_text() {
    let mut dlg = FilterDialogState::new();
    dlg.editing_custom = true;
    dlg.custom_append('v');
    dlg.custom_append('f');
    assert_eq!(dlg.custom_text, "vf");

    dlg.custom_backspace();
    assert_eq!(dlg.custom_text, "v");
}

#[test]
fn filter_dialog_lists_its_presets() {
    let dlg = FilterDialogState::new();
    assert_eq!(dlg.video_presets.len(), 15);
    assert_eq!(dlg.audio_presets.len(), 13);
    assert_eq!(dlg.video_presets[4].filter.name(), "FPS");
    assert_eq!(dlg.audio_presets[6].label, "Low Pass Filter (12kHz)");
}

fn browser_fields(b: &FileBrowserState) -> (String, usize, String, Vec<usize>, Vec<String>) {
    (
        b.current_dir.clone(),
        b.selected_index,
        b.filter_text.clone(),
        b.filtered_indices.clone(),
        b.entries.iter().map(|e| e.name.clone()).collect(),
    )
}

#[test]
fn confirming_the_selection_is_navigating_into_it() {
    for selected in 0..5usize {
        let mut a = sample_browser();
        a.selected_index = selected;
        let mut b = sample_browser();
        b.selected_index = selected;
        let ra = a.confirm_selected();
        let rb = b.navigate_into(selected);
        assert_eq!(format!("{ra:?}"), format!("{rb:?}"));
        assert_eq!(browser_fields(&a), browser_fields(&b));
    }
}

#[test]
fn typing_into_the_filter_never_shows_more_entries() {
    let mut browser = sample_browser();
    let mut shown = browser.filtered_indices.clone();
    for c in "ar.m".chars() {
        browser.filter_push(c);
        assert!(browser.filtered_indices.iter().all(|k| shown.contains(k)));
        assert!(browser.filtered_indices.len() <= shown.len());
        shown = browser.filtered_indices.clone();
    }
}

#[test]
fn the_builder_previews_its_command() {
    let mut state = ffmpeg_tui::app::ApplicationState::new(
        ffmpeg_tui::infra::FFMpegExecutor::new(),
        ffmpeg_tui::infra::FFProbeExecutor::new(),
    );
    let preview = ffmpeg_tui::app::views::preview_command(&state.builder);
    assert!(preview.starts_with("ffmpeg "));
    assert!(preview.contains("-i input.mp4"));
    assert!(preview.ends_with("-y output.mp4"));
    state.builder.input_path = Some("/videos/my clip.mov".to_string());
    state.builder.output_path = Some("/out/clip.mkv".to_string());
    let preview = ffmpeg_tui::app::views::preview_command(&state.builder);
    assert!(preview.contains("-i \"/videos/my clip.mov\""));
    assert!(preview.ends_with("-y /out/clip.mkv"));
}

#[test]
fn job_identifiers_stay_unique_through_a_session() {
    let mut state = ffmpeg_tui::app::ApplicationState::new(
        ffmpeg_tui::infra::FFMpegExecutor::new(),
        ffmpeg_tui::infra::FFProbeExecutor::new(),
    );
    state.builder.input_path = Some("/videos/a.mp4".to_string());
    state.builder.output_path = Some("/videos/b.mkv".to_string());
    for _ in 0..5 {
        assert!(ffmpeg_tui::app::ActionHandler::can_handle(&state));
        ffmpeg_tui::app::ActionHandler::handle(&mut state, ffmpeg_tui::app::Action::BuildJob);
    }
    let ids: Vec<_> = state.get_jobs().iter().map(|j| j.id()).collect();
    assert_eq!(ids.len(), 5);
    for i in 0..ids.len() {
        for j in i + 1..ids.len() {
            assert_ne!(ids[i], ids[j]);
        }
    }
    let first = ids[0];
    ffmpeg_tui::app::ActionHandler::handle(&mut state, ffmpeg_tui::app::Action::JobFailed(first, "boom".to_string()));
    ffmpeg_tui::app::ActionHandler::handle(&mut state, ffmpeg_tui::app::Action::ClearCompleted);
    let after: Vec<_> = state.get_jobs().iter().map(|j| j.id()).collect();
    assert!(after.iter().all(|id| ids.contains(id)));
}
