use jira_downloader::app::{percent, App, AttachmentState, Key};
use jira_downloader::jira::{Attachment, DownloadEvent};

fn listed(name: &str) -> Attachment {
    Attachment {
        filename: name.to_string(),
        size: 1234,
        created: "yesterday".to_string(),
        content: format!("https://tracker.example/files/{}", name),
    }
}

fn catalog(names: &[&str]) -> App {
    let atts: Vec<Attachment> = names.iter().map(|n| listed(n)).collect();
    let mut app = App::new("PROJ-1".to_string(), atts);
    let probes: Vec<Result<bool, String>> = names.iter().map(|_| Ok(false)).collect();
    app.initialize(&probes);
    app
}

fn select(app: &mut App, index: usize) {
    app.clear_selection();
    app.next_row();
    for _ in 0..index {
        app.next_row();
    }
    assert_eq!(app.selected(), Some(index));
}

fn states(app: &App) -> Vec<AttachmentState> {
    app.attachments().iter().map(|a| a.state.clone()).collect()
}

fn is_downloading(s: &AttachmentState) -> bool {
    matches!(s, AttachmentState::Downloading { .. })
}

#[test]
fn new_catalog_is_idle() {
    let app = App::new("PROJ-1".to_string(), vec![listed("a.txt"), listed("bb.txt")]);
    assert_eq!(app.issue(), "PROJ-1");
    assert_eq!(app.attachments().len(), 2);
    assert_eq!(app.attachments()[1].filename, "bb.txt");
    assert_eq!(app.attachments()[1].content, "https://tracker.example/files/bb.txt");
    assert_eq!(app.attachments()[0].state, AttachmentState::NotDownloaded);
    assert_eq!(app.selected(), None);
    assert_eq!(app.active_transfer(), None);
    assert!(!app.exiting());
    assert_eq!(app.status_message(), &None);
}

#[test]
fn column_widths_follow_widest_text() {
    let mut a = listed("a.txt");
    a.size = 7;
    let mut b = listed("日本.txt");
    b.size = 123456;
    let app = App::new("X".to_string(), vec![a, b]);
    let (state_w, name_w, size_w, created_w) = app.lengths();
    assert_eq!(state_w, 4);
    // two wide characters take two columns each
    assert_eq!(name_w, 8);
    assert_eq!(size_w, 6);
    assert_eq!(created_w, "yesterday".len());
}

#[test]
fn empty_catalog_widths_are_zero() {
    let app = App::new("X".to_string(), vec![]);
    assert_eq!(app.lengths(), (4, 0, 0, 0));
}

#[test]
fn creation_time_unparsed_is_kept() {
    let app = App::new("X".to_string(), vec![listed("a")]);
    assert_eq!(app.attachments()[0].created, "yesterday");
}

#[test]
fn creation_time_parsed_is_reformatted() {
    let mut a = listed("a");
    a.created = "2024-03-05T10:20:30.000+0000".to_string();
    let mut b = listed("b");
    b.created = "2024-03-05T10:20:30+00:00".to_string();
    let app = App::new("X".to_string(), vec![a, b]);
    // "+0000" without a colon is no RFC 3339 offset: the text is kept
    assert_eq!(app.attachments()[0].created, "2024-03-05T10:20:30.000+0000");
    let shown = &app.attachments()[1].created;
    assert_ne!(shown, "2024-03-05T10:20:30+00:00");
    assert_eq!(shown.len(), "2024-03-05 10:20".len());
    assert!(shown.starts_with("2024-03-0"));
}

#[test]
fn initialize_marks_present_file_downloaded() {
    let mut app = App::new("X".to_string(), vec![listed("notes.txt")]);
    app.initialize(&vec![Ok(true)]);
    assert_eq!(app.attachments()[0].state, AttachmentState::Downloaded);
    // nothing is queued, so starting the queue transfers nothing
    assert_eq!(app.start_downloads(), None);
    assert_eq!(app.active_transfer(), None);
    assert_eq!(app.attachments()[0].state, AttachmentState::Downloaded);
}

#[test]
fn initialize_records_probe_outcomes() {
    let mut app = App::new("X".to_string(), vec![listed("a"), listed("b"), listed("c")]);
    app.initialize(&vec![Ok(false), Ok(true), Err("permission denied".to_string())]);
    assert_eq!(
        states(&app),
        vec![
            AttachmentState::NotDownloaded,
            AttachmentState::Downloaded,
            AttachmentState::Failed { errmsg: "permission denied".to_string() },
        ]
    );
}

#[test]
fn toggle_twice_returns_to_not_downloaded() {
    let mut app = catalog(&["a"]);
    select(&mut app, 0);
    app.toggle_selection();
    assert_eq!(app.attachments()[0].state, AttachmentState::Queued);
    app.toggle_selection();
    assert_eq!(app.attachments()[0].state, AttachmentState::NotDownloaded);
}

#[test]
fn toggle_requeues_failed_and_keeps_downloaded() {
    let mut app = App::new("X".to_string(), vec![listed("a"), listed("b")]);
    app.initialize(&vec![Err("denied".to_string()), Ok(true)]);
    select(&mut app, 0);
    app.toggle_selection();
    assert_eq!(app.attachments()[0].state, AttachmentState::Queued);
    select(&mut app, 1);
    app.toggle_selection();
    assert_eq!(app.attachments()[1].state, AttachmentState::Downloaded);
}

#[test]
fn toggle_without_selection_changes_nothing() {
    let mut app = catalog(&["a"]);
    app.toggle_selection();
    assert_eq!(app.attachments()[0].state, AttachmentState::NotDownloaded);
}

#[test]
fn queue_runs_in_index_order() {
    let mut app = catalog(&["f0", "f1", "f2", "f3", "f4"]);
    for i in [3usize, 1, 4] {
        select(&mut app, i);
        app.toggle_selection();
    }
    let mut order = vec![];
    let mut next = app.start_downloads();
    while let Some(i) = next {
        order.push(i);
        assert_eq!(app.active_transfer(), Some(i));
        next = app.update_download(DownloadEvent::Finished);
    }
    assert_eq!(order, vec![1, 3, 4]);
    assert_eq!(app.active_transfer(), None);
    for i in [1usize, 3, 4] {
        assert_eq!(app.attachments()[i].state, AttachmentState::Downloaded);
    }
    assert_eq!(app.attachments()[0].state, AttachmentState::NotDownloaded);
}

#[test]
fn error_advances_queue_without_user_action() {
    let mut app = catalog(&["a", "b"]);
    for i in [0usize, 1] {
        select(&mut app, i);
        app.toggle_selection();
    }
    assert_eq!(app.start_downloads(), Some(0));
    let next = app.update_download(DownloadEvent::Error { msg: "timeout".to_string() });
    assert_eq!(
        app.attachments()[0].state,
        AttachmentState::Failed { errmsg: "timeout".to_string() }
    );
    assert_eq!(next, Some(1));
    assert_eq!(app.active_transfer(), Some(1));
    assert_eq!(
        app.attachments()[1].state,
        AttachmentState::Downloading { downloaded: 0, total: None }
    );
}

#[test]
fn only_one_download_at_a_time() {
    let mut app = catalog(&["a", "b", "c"]);
    for i in [0usize, 1, 2] {
        select(&mut app, i);
        app.toggle_selection();
    }
    assert_eq!(app.handle_key_press(Key::Start), Some(0));
    assert_eq!(app.handle_key_press(Key::Start), None);
    assert_eq!(app.start_downloads(), None);
    // toggling the downloading entry does nothing
    select(&mut app, 0);
    app.toggle_selection();
    app.update_download(DownloadEvent::Progress { downloaded: 10, total: Some(40) });
    let n = states(&app).iter().filter(|s| is_downloading(s)).count();
    assert_eq!(n, 1);
    assert_eq!(
        app.attachments()[0].state,
        AttachmentState::Downloading { downloaded: 10, total: Some(40) }
    );
    assert_eq!(app.attachments()[1].state, AttachmentState::Queued);
}

#[test]
fn starting_event_resets_progress() {
    let mut app = catalog(&["a"]);
    select(&mut app, 0);
    app.toggle_selection();
    app.start_downloads();
    app.update_download(DownloadEvent::Progress { downloaded: 5, total: None });
    assert_eq!(app.update_download(DownloadEvent::Starting), None);
    assert_eq!(
        app.attachments()[0].state,
        AttachmentState::Downloading { downloaded: 0, total: None }
    );
}

#[test]
fn event_without_active_transfer_is_ignored() {
    let mut app = catalog(&["a"]);
    assert_eq!(app.update_download(DownloadEvent::Finished), None);
    assert_eq!(app.attachments()[0].state, AttachmentState::NotDownloaded);
}

#[test]
fn navigation_is_clamped() {
    let mut app = catalog(&["a", "b"]);
    app.handle_key_press(Key::Up);
    assert_eq!(app.selected(), Some(0));
    app.handle_key_press(Key::Up);
    assert_eq!(app.selected(), Some(0));
    app.handle_key_press(Key::Down);
    app.handle_key_press(Key::Down);
    app.handle_key_press(Key::Down);
    assert_eq!(app.selected(), Some(1));
    app.handle_key_press(Key::Clear);
    assert_eq!(app.selected(), None);
    app.handle_key_press(Key::Down);
    assert_eq!(app.selected(), Some(0));
    app.handle_key_press(Key::Switch);
    assert_eq!(app.selected(), None);
    app.handle_key_press(Key::Switch);
    assert_eq!(app.selected(), Some(0));
}

#[test]
fn navigation_on_empty_catalog_selects_nothing() {
    let mut app = catalog(&[]);
    app.handle_key_press(Key::Down);
    app.handle_key_press(Key::Up);
    app.handle_key_press(Key::Switch);
    assert_eq!(app.selected(), None);
    app.handle_key_press(Key::Toggle);
    assert_eq!(app.handle_key_press(Key::Start), None);
}

#[test]
fn quit_key_sets_exit() {
    let mut app = catalog(&["a"]);
    assert_eq!(app.handle_key_press(Key::Quit), None);
    assert!(app.exiting());
}

#[test]
fn status_messages_describe_selected_entry() {
    let mut app = catalog(&["r.pdf"]);
    app.update_status_message();
    assert_eq!(app.status_message(), &None);
    select(&mut app, 0);
    app.update_status_message();
    assert_eq!(app.status_message().as_deref(), Some("Attachment 'r.pdf' is not downloaded."));
    app.handle_key_press(Key::Toggle);
    app.update_status_message();
    assert_eq!(app.status_message().as_deref(), Some("Attachment 'r.pdf' is queued for download."));
    app.handle_key_press(Key::Start);
    app.update_download(DownloadEvent::Progress { downloaded: 50, total: None });
    app.update_status_message();
    assert_eq!(app.status_message().as_deref(), Some("Downloading 'r.pdf'... 50 bytes downloaded"));
    app.update_download(DownloadEvent::Progress { downloaded: 150, total: Some(1000) });
    app.update_status_message();
    assert_eq!(app.status_message().as_deref(), Some("Downloading 'r.pdf'... 150/1000 bytes"));
    app.update_download(DownloadEvent::Error { msg: "HTTP error: 404".to_string() });
    app.update_status_message();
    assert_eq!(
        app.status_message().as_deref(),
        Some("Attachment 'r.pdf' failed to download: HTTP error: 404")
    );
    app.handle_key_press(Key::Toggle);
    app.handle_key_press(Key::Start);
    app.update_download(DownloadEvent::Finished);
    app.update_status_message();
    assert_eq!(app.status_message().as_deref(), Some("Attachment 'r.pdf' has been downloaded."));
    // without a selection the line stays
    app.clear_selection();
    app.update_status_message();
    assert_eq!(app.status_message().as_deref(), Some("Attachment 'r.pdf' has been downloaded."));
}

#[test]
fn percentage_rounds_down() {
    assert_eq!(percent(50, Some(200)), Some(25));
    assert_eq!(percent(1, Some(3)), Some(33));
    assert_eq!(percent(200, Some(200)), Some(100));
    assert_eq!(percent(u64::MAX, Some(u64::MAX)), Some(100));
}

#[test]
fn percentage_unknown_total_is_indeterminate() {
    assert_eq!(percent(50, None), None);
    assert_eq!(percent(50, Some(0)), None);
}

#[test]
fn glyphs_per_state() {
    assert_eq!(AttachmentState::NotDownloaded.glyph(), "·");
    assert_eq!(AttachmentState::Queued.glyph(), ">");
    assert_eq!(AttachmentState::Downloading { downloaded: 50, total: Some(200) }.glyph(), "25%");
    assert_eq!(AttachmentState::Downloading { downloaded: 0, total: Some(7) }.glyph(), "0%");
    assert_eq!(AttachmentState::Downloading { downloaded: 50, total: None }.glyph(), "↓");
    assert_eq!(AttachmentState::Downloaded.glyph(), "✓");
    assert_eq!(AttachmentState::Failed { errmsg: "x".to_string() }.glyph(), "/!\\");
}

#[test]
fn toggle_state_edges() {
    assert_eq!(AttachmentState::NotDownloaded.toggle(), AttachmentState::Queued);
    assert_eq!(AttachmentState::Queued.toggle(), AttachmentState::NotDownloaded);
    assert_eq!(AttachmentState::Failed { errmsg: "e".to_string() }.toggle(), AttachmentState::Queued);
    assert_eq!(AttachmentState::Downloaded.toggle(), AttachmentState::Downloaded);
    let d = AttachmentState::Downloading { downloaded: 3, total: Some(9) };
    assert_eq!(d.toggle(), d);
}
