use rataplay::app::App;
use rataplay::config::{Config, Settings};
use rataplay::events::SearchResult;
use rataplay::keys::toggle_index;
use rataplay::local::FoundTask;
use rataplay::model::{DownloadEvent, DownloadStatus, Video, VideoType};
use rataplay::playback::{terminal_media_reply, MediaEvent};
use rataplay::state::{AfterScan, AppState, Effect, InputMode, Key};

fn fresh_app() -> App {
    let config = Config::with_download_directory("/tmp/rataplay-test".to_string());
    App::new(config, Settings::default(), Vec::new())
}

fn video(id: &str) -> Video {
    let mut v = Video::empty();
    v.id = id.to_string();
    v.title = format!("Title {}", id);
    v.url = format!("https://www.youtube.com/watch?v={}", id);
    v.thumbnail_url = Some(format!("https://i.ytimg.com/{}.jpg", id));
    v.is_partial = true;
    v.video_type = VideoType::Video;
    v
}

fn status(app: &App) -> String {
    app.status_message.clone().unwrap_or_default()
}

fn type_text(app: &mut App, text: &str) {
    for c in text.chars() {
        app.handle_key_event(Key::Char(c), false);
    }
}

/// Starts a search for `query` and returns its search id.
fn search(app: &mut App, query: &str) -> u64 {
    type_text(app, query);
    let effects = app.handle_key_event(Key::Enter, false);
    assert_eq!(effects.len(), 1);
    match &effects[0] {
        Effect::Search { query: q, start, end, search_id, show_live, show_playlists } => {
            assert_eq!(q, query);
            assert_eq!(*start, 1);
            assert_eq!(*end, 20);
            assert!(*show_live && *show_playlists);
            *search_id
        }
        _ => panic!("expected a search"),
    }
}

#[test]
fn app_starts_in_the_search_bar() {
    let app = fresh_app();
    assert!(app.running);
    assert_eq!(app.input_mode, InputMode::Editing);
    assert_eq!(app.state, AppState::Search);
    assert_eq!(app.prefs.search_limit, 20);
    assert_eq!(app.prefs.theme_index.get(), 0);
    assert!(app.downloads.manager.is_empty());
}

#[test]
fn a_search_fills_the_results() {
    let mut app = fresh_app();
    let id = search(&mut app, "lofi");
    assert_eq!(id, 1);
    assert!(app.results.is_searching);
    assert_eq!(status(&app), "Searching for 'lofi'...");
    assert_eq!(app.input_mode, InputMode::Normal);

    let effects = app.on_search_result(id, SearchResult::Video(video("a1")));
    assert!(effects.iter().any(|e| matches!(e, Effect::FetchImage(i, _) if i == "a1")));
    assert_eq!(app.results.items.len(), 1);
    assert_eq!(app.results.selected, Some(0));
    assert_eq!(app.state, AppState::Results);

    app.on_search_result(id, SearchResult::Video(video("a2")));
    app.on_search_result(id, SearchResult::Progress(2, 20));
    assert!(app.results.is_searching);
    app.on_search_result(id, SearchResult::Progress(20, 20));
    assert!(!app.results.is_searching);
    assert_eq!(status(&app), "Results updated.");
    assert_eq!(app.results.items.len(), 2);
}

#[test]
fn an_empty_search_says_so() {
    let mut app = fresh_app();
    let id = search(&mut app, "zzz");
    app.on_search_result(id, SearchResult::Progress(0, 0));
    assert!(!app.results.is_searching);
    assert_eq!(status(&app), "No results found.");
}

#[test]
fn reports_of_an_older_search_are_dropped() {
    let mut app = fresh_app();
    let first = search(&mut app, "one");
    app.handle_key_event(Key::Char('/'), false);
    for _ in 0..3 {
        app.handle_key_event(Key::Backspace, false);
    }
    let second = search(&mut app, "two");
    assert_ne!(first, second);
    let effects = app.on_search_result(first, SearchResult::Video(video("old")));
    assert!(effects.is_empty());
    assert!(app.results.items.is_empty());
    app.on_search_result(second, SearchResult::Video(video("new")));
    assert_eq!(app.results.items.len(), 1);
    assert_eq!(app.results.items[0].id, "new");
}

#[test]
fn a_blank_search_does_nothing() {
    let mut app = fresh_app();
    type_text(&mut app, "   ");
    let effects = app.perform_search();
    assert!(effects.is_empty());
    assert!(!app.results.is_searching);
}

#[test]
fn theme_cycles_through_five() {
    let mut app = fresh_app();
    app.input_mode = InputMode::Normal;
    let mut names = Vec::new();
    for _ in 0..5 {
        let effects = app.handle_key_event(Key::Char('t'), true);
        assert!(matches!(effects.as_slice(), [Effect::SaveConfig]));
        names.push(status(&app));
    }
    assert_eq!(names, vec!["Theme: Dracula", "Theme: Matrix", "Theme: Cyberpunk", "Theme: Catppuccin", "Theme: Default"]);
    assert_eq!(app.prefs.theme_index.get(), 0);
    assert_eq!(app.save_config().theme, "Default");
}

#[test]
fn live_filter_twice_restores_it() {
    let mut app = fresh_app();
    app.input_mode = InputMode::Normal;
    app.toggle_live();
    assert!(!app.prefs.show_live);
    assert_eq!(status(&app), "Show Live: Off");
    app.toggle_live();
    assert!(app.prefs.show_live);
    assert_eq!(status(&app), "Show Live: On");
    app.toggle_playlists();
    app.toggle_playlists();
    assert!(app.prefs.show_playlists);
}

#[test]
fn marking_twice_keeps_the_set() {
    let mut v: Vec<usize> = vec![3, 1];
    toggle_index(&mut v, 2);
    assert_eq!(v, vec![3, 1, 2]);
    toggle_index(&mut v, 2);
    assert_eq!(v, vec![3, 1]);
    toggle_index(&mut v, 3);
    assert_eq!(v, vec![1]);
    toggle_index(&mut v, 3);
    let mut sorted = v.clone();
    sorted.sort();
    assert_eq!(sorted, vec![1, 3]);
}

#[test]
fn pause_twice_gives_back_the_player() {
    let mut app = fresh_app();
    assert!(app.toggle_pause().is_empty());
    app.playback.playing = true;
    let e = app.toggle_pause();
    assert!(app.playback.is_paused);
    assert_eq!(status(&app), "Paused");
    assert!(matches!(e.as_slice(), [Effect::PlayerCommand(_), Effect::MediaPlaying(false)]));
    app.toggle_pause();
    assert!(!app.playback.is_paused);
    assert_eq!(status(&app), "Resumed");
}

#[test]
fn stopping_twice_is_stopping_once() {
    let mut app = fresh_app();
    app.playback.playing = true;
    app.playback.title = Some("x".to_string());
    let e = app.stop_playback();
    assert!(matches!(e.as_slice(), [Effect::StopPlayer, Effect::MediaPlaying(false)]));
    assert!(!app.playback.playing);
    assert_eq!(app.playback.title, None);
    assert_eq!(status(&app), "Stopped.");
    app.stop_playback();
    assert!(!app.playback.playing);
    assert_eq!(status(&app), "Stopped.");
}

#[test]
fn seeking_writes_the_command() {
    let mut app = fresh_app();
    assert!(app.seek(5).is_empty());
    app.playback.playing = true;
    let e = app.seek(-30);
    assert!(matches!(e.as_slice(), [Effect::PlayerCommand(c)] if c == "{\"command\": [\"osd-msg-bar\", \"seek\", -30, \"relative\"]}\n"));
    assert_eq!(status(&app), "Seeked -30s");
}

#[test]
fn media_keys() {
    let mut app = fresh_app();
    app.playback.playing = true;
    let e = app.on_media_event(MediaEvent::Pause);
    assert!(app.playback.is_paused);
    assert!(matches!(e.as_slice(), [Effect::PlayerCommand(c), Effect::MediaPlaying(false)] if c.contains("true")));
    let e = app.on_media_event(MediaEvent::Toggle);
    assert!(!app.playback.is_paused);
    assert!(matches!(e.as_slice(), [Effect::PlayerCommand(_), Effect::MediaPlaying(true)]));
    let e = app.on_media_event(MediaEvent::Next);
    assert!(matches!(e.as_slice(), [Effect::PlayerCommand(c)] if c == "{\"command\": [\"seek\", 10, \"relative\"]}\n"));
    let e = app.on_media_event(MediaEvent::Stop);
    assert!(matches!(e.as_slice(), [Effect::StopPlayer, Effect::MediaPlaying(false)]));
    assert!(!app.playback.playing);
    let e = app.on_media_event(MediaEvent::Play);
    assert!(matches!(e.as_slice(), [Effect::MediaPlaying(true)]));
    let r = terminal_media_reply(MediaEvent::Stop);
    assert!(r.stop && r.command.is_none());
    let r = terminal_media_reply(MediaEvent::Previous);
    assert_eq!(r.command.as_deref(), Some("{\"command\": [\"seek\", -10, \"relative\"]}\n"));
}

#[test]
fn playback_progress_and_polling() {
    let mut app = fresh_app();
    assert!(app.poll_player().is_empty());
    app.playback.playing = true;
    assert_eq!(app.poll_player().len(), 2);
    app.set_playback_progress(65, 3725, true, false);
    assert_eq!(app.playback.duration_str.as_deref(), Some("01:05/1:02:05"));
    app.set_playback_progress(10, 0, false, true);
    assert_eq!(app.playback.duration_str.as_deref(), Some("01:05/1:02:05"));
    assert!(!app.playback.is_finishing);
    let e = app.on_playback_exited();
    assert!(matches!(e.as_slice(), [Effect::MediaPlaying(false)]));
    assert_eq!(status(&app), "Stopped.");
    assert!(app.on_playback_exited().is_empty());
}

#[test]
fn terminal_loading_flow() {
    let mut app = fresh_app();
    let e = app.start_terminal_loading("https://www.youtube.com/watch?v=x".to_string());
    assert!(matches!(e.as_slice(), [Effect::StartTerminalLoading(u)] if u == "https://www.youtube.com/watch?v=x"));
    for _ in 0..60 {
        app.advance_terminal_loading();
    }
    assert_eq!(app.playback.terminal_loading_progress, 95);
    app.on_terminal_ready(Ok("https://cdn/v.mp4|Agent/1".to_string()));
    assert_eq!(app.playback.terminal_loading_progress, 100);
    let ready = app.take_terminal_ready().expect("ready");
    assert_eq!(ready.0, "https://cdn/v.mp4");
    assert_eq!(ready.1.as_deref(), Some("Agent/1"));
    assert!(!app.playback.terminal_loading);
    assert!(app.take_terminal_ready().is_none());
    app.on_terminal_ready(Err("late".to_string()));
    assert_eq!(app.playback.terminal_loading_error, None);
}

#[test]
fn download_reports() {
    let mut app = fresh_app();
    let v = video("d1");
    app.downloads.manager.add_task(&v, "best");
    assert!(app.downloads.manager.contains("d1"));
    assert!(matches!(app.downloads.manager.get("d1").map(|t| &t.status), Some(DownloadStatus::Pending)));

    let e = app.on_download_event(DownloadEvent::Started("d1".to_string(), 4242));
    assert!(matches!(e.as_slice(), [Effect::RefreshLocalFiles(AfterScan::Nothing)]));
    assert_eq!(app.downloads.manager.get("d1").unwrap().pid, Some(4242));

    app.on_download_event(DownloadEvent::Update(
        "d1".to_string(),
        12.5f64.to_bits(),
        "1.0MiB/s".to_string(),
        "00:10".to_string(),
        "10MiB".to_string(),
    ));
    let t = app.downloads.manager.get("d1").unwrap();
    assert!(matches!(t.status, DownloadStatus::Downloading));
    assert_eq!(f64::from_bits(t.progress_bits), 12.5);
    assert_eq!(t.speed, "1.0MiB/s");

    app.on_download_event(DownloadEvent::Pause("d1".to_string()));
    assert!(matches!(app.downloads.manager.get("d1").unwrap().status, DownloadStatus::Paused));
    app.on_download_event(DownloadEvent::Resume("d1".to_string()));
    assert!(matches!(app.downloads.manager.get("d1").unwrap().status, DownloadStatus::Downloading));

    app.downloads.selected = Some(0);
    let e = app.on_download_event(DownloadEvent::Finished("d1".to_string()));
    assert!(matches!(e.as_slice(), [Effect::RefreshLocalFiles(AfterScan::Nothing)]));
    assert!(!app.downloads.manager.contains("d1"));
    assert!(app.downloads.manager.is_empty());
    assert_eq!(app.downloads.selected, None);
}

#[test]
fn canceled_downloads_do_not_fail() {
    let mut app = fresh_app();
    app.downloads.manager.add_task(&video("c1"), "best");
    app.downloads.manager.add_task(&video("c2"), "best");
    app.on_download_event(DownloadEvent::Canceled("c1".to_string()));
    app.on_download_event(DownloadEvent::Error("c1".to_string(), "killed".to_string()));
    assert!(matches!(app.downloads.manager.get("c1").unwrap().status, DownloadStatus::Canceled));
    app.on_download_event(DownloadEvent::Error("c2".to_string(), "HTTP 403".to_string()));
    assert!(matches!(&app.downloads.manager.get("c2").unwrap().status, DownloadStatus::Error(e) if e == "HTTP 403"));
    app.on_download_event(DownloadEvent::Error("nobody".to_string(), "x".to_string()));
    assert_eq!(app.downloads.manager.len(), 2);
}

#[test]
fn the_order_lists_the_downloads() {
    let mut app = fresh_app();
    app.downloads.manager.add_task(&video("o1"), "best");
    app.downloads.manager.add_task(&video("o2"), "22");
    app.downloads.manager.add_task(&video("o1"), "18");
    assert_eq!(app.downloads.manager.len(), 3);
    assert_eq!(app.downloads.manager.get("o1").unwrap().format_id, "18");
    app.downloads.manager.remove("o1");
    assert_eq!(app.downloads.manager.len(), 1);
    assert_eq!(app.downloads.manager.id_at(0).map(|s| s.as_str()), Some("o2"));
}

#[test]
fn unfinished_downloads_are_restored_once() {
    let mut app = fresh_app();
    let found = FoundTask { video: video("r1"), format_id: "best".to_string(), info_json_path: "/d/x.info.json".to_string() };
    app.restore_found(found);
    let t = app.downloads.manager.get("r1").expect("restored");
    assert!(matches!(t.status, DownloadStatus::Canceled));
    assert_eq!(t.info_json_path.as_deref(), Some("/d/x.info.json"));
    let again = FoundTask { video: video("r1"), format_id: "22".to_string(), info_json_path: "/d/y.info.json".to_string() };
    app.restore_found(again);
    assert_eq!(app.downloads.manager.len(), 1);
    assert_eq!(app.downloads.manager.get("r1").unwrap().format_id, "best");
}

#[test]
fn outcome_messages() {
    let mut app = fresh_app();
    let e = app.file_deleted(Ok(()));
    assert_eq!(status(&app), "File deleted.");
    assert_eq!(e.len(), 1);
    assert!(app.file_deleted(Err("denied".to_string())).is_empty());
    assert_eq!(status(&app), "Error deleting: denied");
    app.cleanup_done(Ok(3));
    assert_eq!(status(&app), "Cleaned 3 garbage files.");
    app.cleanup_done(Err("io".to_string()));
    assert_eq!(status(&app), "Error cleanup: io");
    app.copy_done("URL", Some(true));
    assert_eq!(status(&app), "URL copied to clipboard.");
    app.copy_done("Channel ID", Some(false));
    assert_eq!(status(&app), "Failed to copy Channel ID.");
    app.copy_done("URL", None);
    assert_eq!(status(&app), "Clipboard not available.");
    app.browser_opened(true);
    assert_eq!(status(&app), "Opening in browser...");
    app.browser_opened(false);
    assert_eq!(status(&app), "Failed to open browser.");
    app.playback_failed(true, "no mpv");
    assert_eq!(status(&app), "Error playing audio: no mpv");
    app.on_formats_error("boom");
    assert_eq!(status(&app), "Error fetching formats: boom");
}

#[test]
fn details_replace_the_partial_result() {
    let mut app = fresh_app();
    let id = search(&mut app, "x");
    app.on_search_result(id, SearchResult::Video(video("p1")));
    let e = app.resolve_selected_details();
    assert!(matches!(e.as_slice(), [Effect::ResolveDetails(v)] if v.len() == 1));
    assert!(app.resolve_selected_details().is_empty());
    let mut full = video("p1");
    full.is_partial = false;
    full.title = "Full title".to_string();
    app.on_details(full);
    assert_eq!(app.results.items[0].title, "Full title");
    assert!(!app.results.items[0].is_partial);
    assert!(app.results.pending_resolution_ids.is_empty());
}

#[test]
fn capital_keys_act_as_small_ones_outside_typing() {
    let mut app = fresh_app();
    app.input_mode = InputMode::Normal;
    app.handle_key_event(Key::Char('Q'), false);
    assert!(!app.running);
    let mut typing = fresh_app();
    typing.handle_key_event(Key::Char('Q'), false);
    assert!(typing.running);
    assert_eq!(typing.search.text(), "Q");
}

#[test]
fn only_unfinished_downloads_are_listed_from_disk() {
    let mut app = fresh_app();
    let done = FoundTask { video: video("f1"), format_id: "best".to_string(), info_json_path: "/d/f1.info.json".to_string() };
    app.restore_scanned(done, &[false, false, false]);
    assert!(app.downloads.manager.is_empty());
    let partial = FoundTask { video: video("f2"), format_id: "best".to_string(), info_json_path: "/d/f2.info.json".to_string() };
    app.restore_scanned(partial, &[false, true]);
    assert!(app.downloads.manager.contains("f2"));
    assert!(rataplay::local::is_metadata_file("a b.info.json"));
    assert!(!rataplay::local::is_metadata_file("a.json"));
}
