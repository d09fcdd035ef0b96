use rataplay::app::{App, MainView};
use rataplay::config::{Config, Settings};
use rataplay::events::SearchResult;
use rataplay::model::{LocalFile, Video, VideoType};
use rataplay::state::{AfterScan, AppState, DownloadControl, Effect, InputMode, Key};
use rataplay::yt::{details_reports, search_end, CommandOutput};

fn fresh_app() -> App {
    let config = Config::with_download_directory("/tmp/rataplay-panel".to_string());
    let mut app = App::new(config, Settings::default(), Vec::new());
    app.handle_key_event(Key::Esc, false);
    assert_eq!(app.input_mode, InputMode::Normal);
    app
}

fn local(name: &str) -> LocalFile {
    LocalFile {
        name: name.to_string(),
        path: format!("/tmp/rataplay-panel/{}", name),
        size: "1.0 MB".to_string(),
        extension: "mp4".to_string(),
        is_garbage: false,
        modified: 0,
    }
}

fn panel_with_files(names: &[&str]) -> App {
    let mut app = fresh_app();
    app.handle_key_event(Key::Char('d'), false);
    assert_eq!(app.state, AppState::Downloads);
    app.downloads.local_files = names.iter().map(|n| local(n)).collect();
    app
}

fn video(id: &str) -> Video {
    let mut v = Video::empty();
    v.id = id.to_string();
    v.title = format!("Title {}", id);
    v.url = format!("https://www.youtube.com/watch?v={}", id);
    v.video_type = VideoType::Video;
    v
}

#[test]
fn c_on_the_panel_cleans_up_leftovers() {
    let mut app = panel_with_files(&["a.mp4"]);
    let e = app.handle_key_event(Key::Char('c'), false);
    assert!(matches!(e.as_slice(), [Effect::CleanupGarbage]));
    assert_eq!(app.state, AppState::Downloads);
    let e = app.cleanup_done(Ok(2));
    assert!(matches!(e.as_slice(), [Effect::RefreshLocalFiles(AfterScan::Nothing)]));
    assert_eq!(app.status_message.as_deref(), Some("Cleaned 2 garbage files."));
}

#[test]
fn d_on_the_panel_deletes_the_marked_files() {
    let mut app = panel_with_files(&["a.mp4", "b.mp4", "c.mp4"]);
    app.downloads.selected_local = Some(0);
    app.handle_key_event(Key::Char(' '), false);
    app.downloads.selected_local = Some(2);
    app.handle_key_event(Key::Char(' '), false);
    assert_eq!(app.downloads.selected_local_set, vec![0, 2]);
    let e = app.handle_key_event(Key::Char('d'), false);
    match e.as_slice() {
        [Effect::DeleteFiles(paths), Effect::RefreshLocalFiles(AfterScan::Nothing)] => {
            assert_eq!(paths, &vec!["/tmp/rataplay-panel/a.mp4".to_string(), "/tmp/rataplay-panel/c.mp4".to_string()]);
        }
        _ => panic!("expected the marked files to be deleted"),
    }
    assert_eq!(app.state, AppState::Downloads);
    assert!(app.downloads.selected_local_set.is_empty());
    assert_eq!(app.downloads.selected_local, None);
    assert_eq!(app.status_message.as_deref(), Some("Deleted 2 files."));
}

#[test]
fn d_on_the_panel_with_no_marks_deletes_nothing() {
    let mut app = panel_with_files(&["a.mp4"]);
    app.downloads.selected_local = Some(0);
    let e = app.handle_key_event(Key::Char('d'), false);
    match e.as_slice() {
        [Effect::DeleteFiles(paths), Effect::RefreshLocalFiles(AfterScan::Nothing)] => assert!(paths.is_empty()),
        _ => panic!("expected an empty deletion"),
    }
    assert_eq!(app.downloads.selected_local, Some(0));
    assert_eq!(app.status_message.as_deref(), Some("Deleted 0 files."));
}

#[test]
fn x_on_a_file_deletes_it() {
    let mut app = panel_with_files(&["a.mp4", "b.mp4"]);
    app.downloads.selected_local = Some(1);
    let e = app.handle_key_event(Key::Char('x'), false);
    assert!(matches!(e.as_slice(), [Effect::DeleteFile(p)] if p == "/tmp/rataplay-panel/b.mp4"));
    assert_eq!(app.state, AppState::Downloads);
    assert_eq!(app.downloads.selected_local, Some(1));
}

#[test]
fn x_on_a_download_cancels_it() {
    let mut app = panel_with_files(&[]);
    app.downloads.manager.add_task(&video("t1"), "best");
    app.downloads.selected = Some(0);
    let e = app.handle_key_event(Key::Char('x'), false);
    assert!(matches!(e.as_slice(), [Effect::Control(DownloadControl::Cancel(id))] if id == "t1"));
}

#[test]
fn x_with_nothing_selected_stops_the_player() {
    let mut app = panel_with_files(&[]);
    app.downloads.selected = None;
    app.downloads.selected_local = None;
    let e = app.handle_key_event(Key::Char('x'), false);
    assert!(matches!(e.as_slice(), [Effect::StopPlayer, Effect::MediaPlaying(false)]));
    assert_eq!(app.state, AppState::Downloads);
}

#[test]
fn capital_letters_act_as_small_ones() {
    let mut app = fresh_app();
    app.handle_key_event(Key::Char('Q'), false);
    assert!(!app.running);
}

#[test]
fn menu_keys_are_distinct() {
    let mut app = panel_with_files(&["a.mp4"]);
    app.downloads.selected_local = Some(0);
    app.downloads.selected_local_set = vec![0];
    let keys: Vec<Key> = app.get_available_actions().iter().map(|a| a.key).collect();
    for i in 0..keys.len() {
        for j in (i + 1)..keys.len() {
            assert_ne!(keys[i], keys[j]);
        }
    }
    let last = app.get_available_actions().pop().unwrap();
    assert_eq!(last.key, Key::Char('c'));
    assert_eq!(last.name, "Cleanup Garbage (.part, .ytdl)");
}

#[test]
fn main_view_rows() {
    let mut app = fresh_app();
    assert_eq!(app.main_view(), MainView { greeting: true, load_more: false });
    app.handle_key_event(Key::Char('/'), false);
    for c in "music".chars() {
        app.handle_key_event(Key::Char(c), false);
    }
    assert_eq!(app.main_view(), MainView { greeting: false, load_more: false });
    let effects = app.handle_key_event(Key::Enter, false);
    let id = match &effects[0] {
        Effect::Search { search_id, .. } => *search_id,
        _ => panic!("expected a search"),
    };
    app.on_search_result(id, SearchResult::Video(video("m1")));
    assert_eq!(app.main_view(), MainView { greeting: false, load_more: true });
    app.results.is_url_mode = true;
    assert_eq!(app.main_view(), MainView { greeting: false, load_more: false });
    app.results.is_playlist_mode = true;
    assert_eq!(app.main_view(), MainView { greeting: false, load_more: true });
}

#[test]
fn search_run_endings() {
    let ok = CommandOutput { success: true, stdout: String::new(), stderr: String::new() };
    assert!(matches!(search_end(&ok), Ok(SearchResult::Progress(1, 1))));
    let failed = CommandOutput { success: false, stdout: String::new(), stderr: "boom".to_string() };
    assert!(matches!(search_end(&failed), Err(m) if m == "yt-dlp error: boom"));
}

#[test]
fn detail_run_reports() {
    let failed = CommandOutput { success: false, stdout: "{}".to_string(), stderr: "no network".to_string() };
    let r = details_reports(&failed);
    assert_eq!(r.len(), 1);
    assert!(matches!(&r[0], Err(m) if m == "yt-dlp error: no network"));

    let out = CommandOutput {
        success: true,
        stdout: "{\"id\": \"a1\", \"title\": \"First\"}\n\n   \nnot json\n{\"id\": \"b2\", \"title\": \"Second\"}\n".to_string(),
        stderr: String::new(),
    };
    let r = details_reports(&out);
    assert_eq!(r.len(), 3);
    assert!(matches!(&r[0], Ok(v) if v.id == "a1" && v.title == "First"));
    assert!(matches!(&r[1], Err(m) if m == "Failed to parse yt-dlp JSON: not json"));
    assert!(matches!(&r[2], Ok(v) if v.id == "b2" && v.title == "Second"));
}

#[test]
fn the_menu_offers_what_its_screen_offers() {
    let mut app = panel_with_files(&["a.mp4"]);
    app.downloads.selected_local = Some(0);
    let before: Vec<(Key, &str)> = app.get_available_actions().iter().map(|a| (a.key, a.name)).collect();
    app.handle_key_event(Key::Enter, false);
    assert_eq!(app.state, AppState::ActionMenu);
    assert_eq!(app.previous_app_state, AppState::Downloads);
    let after: Vec<(Key, &str)> = app.get_available_actions().iter().map(|a| (a.key, a.name)).collect();
    assert_eq!(before, after);
    assert_eq!(after[0], (Key::Char('w'), "Play (External)"));
}

#[test]
fn five_theme_presses_come_back() {
    let mut app = fresh_app();
    let start = app.prefs.theme_index.get();
    let names = ["Dracula", "Matrix", "Cyberpunk", "Catppuccin", "Default"];
    for name in names {
        let e = app.handle_key_event(Key::Char('t'), true);
        assert!(matches!(e.as_slice(), [Effect::SaveConfig]));
        assert_eq!(app.status_message.as_deref(), Some(format!("Theme: {}", name).as_str()));
    }
    assert_eq!(app.prefs.theme_index.get(), start);
    assert_eq!(app.save_config().theme, "Default");
}

#[test]
fn search_lines_report_the_video_then_the_progress() {
    let line = "{\"id\": \"abc\", \"title\": \"A song\", \"url\": \"https://www.youtube.com/watch?v=abc\"}";
    let (r, n) = rataplay::yt::search_line_reports(line, false, true, true, 2, 10);
    assert_eq!(n, 3);
    assert_eq!(r.len(), 2);
    assert!(matches!(&r[0], SearchResult::Video(v) if v.id == "abc" && v.title == "A song"));
    assert!(matches!(r[1], SearchResult::Progress(3, 10)));
    let (r, n) = rataplay::yt::search_line_reports("not json", false, true, true, 2, 10);
    assert_eq!(n, 2);
    assert!(r.is_empty());
}
