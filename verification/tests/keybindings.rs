use rataplay::app::App;
use rataplay::config::{Config, Settings};
use rataplay::events::SearchResult;
use rataplay::model::{Video, VideoType};
use rataplay::state::{AfterScan, AppAction, AppState, Effect, InputMode, Key};

fn app_with_results(n: usize) -> App {
    let config = Config::with_download_directory("/tmp/rataplay-keys".to_string());
    let mut app = App::new(config, Settings::default(), Vec::new());
    for c in "music".chars() {
        app.handle_key_event(Key::Char(c), false);
    }
    let effects = app.handle_key_event(Key::Enter, false);
    let id = match &effects[0] {
        Effect::Search { search_id, .. } => *search_id,
        _ => panic!("expected a search"),
    };
    for i in 0..n {
        let mut v = Video::empty();
        v.id = format!("v{}", i);
        v.title = format!("Song {}", i);
        v.url = format!("https://www.youtube.com/watch?v=v{}", i);
        v.video_type = VideoType::Video;
        app.on_search_result(id, SearchResult::Video(v));
    }
    app.on_search_result(id, SearchResult::Progress(20, 20));
    app
}

#[test]
fn navigation_keys_move_the_selection() {
    let mut app = app_with_results(3);
    assert_eq!(app.state, AppState::Results);
    assert_eq!(app.results.selected, Some(0));
    app.handle_key_event(Key::Char('j'), false);
    app.handle_key_event(Key::Down, false);
    assert_eq!(app.results.selected, Some(2));
    app.handle_key_event(Key::Char('j'), false);
    assert_eq!(app.results.selected, Some(3));
    app.handle_key_event(Key::Char('j'), false);
    assert_eq!(app.results.selected, Some(3));
    app.handle_key_event(Key::Char('k'), false);
    app.handle_key_event(Key::Up, false);
    assert_eq!(app.results.selected, Some(1));
}

#[test]
fn search_keys_focus_the_search_bar() {
    let mut app = app_with_results(1);
    assert_eq!(app.input_mode, InputMode::Normal);
    app.handle_key_event(Key::Char('/'), false);
    assert_eq!(app.input_mode, InputMode::Editing);
    app.handle_key_event(Key::Esc, false);
    assert_eq!(app.input_mode, InputMode::Normal);
    app.handle_key_event(Key::Char('s'), false);
    assert_eq!(app.input_mode, InputMode::Editing);
}

#[test]
fn enter_opens_the_action_menu() {
    let mut app = app_with_results(2);
    let e = app.handle_key_event(Key::Enter, false);
    assert!(e.is_empty());
    assert_eq!(app.state, AppState::ActionMenu);
    assert_eq!(app.previous_app_state, AppState::Results);
    let names: Vec<&str> = app.get_available_actions().iter().map(|a| a.name).collect();
    assert!(!names.is_empty());
    let e = app.handle_key_event(Key::Char('w'), false);
    assert!(matches!(e.as_slice(), [Effect::FetchFormats(u)] if u == "https://www.youtube.com/watch?v=v0"));
    assert_eq!(app.input_mode, InputMode::Loading);
}

#[test]
fn right_plays_the_selected_video_in_a_window() {
    let mut app = app_with_results(2);
    let e = app.handle_key_event(Key::Right, false);
    assert!(matches!(e.as_slice(), [Effect::StopPlayer, Effect::MediaPlaying(false)]));
    match &app.pending_action {
        Some((AppAction::WatchExternal, url, title)) => {
            assert_eq!(url, "https://www.youtube.com/watch?v=v0::best");
            assert_eq!(title, "Song 0");
        }
        _ => panic!("expected a pending playback"),
    }
}

#[test]
fn playback_keys() {
    let mut app = app_with_results(1);
    app.playback.playing = true;
    let e = app.handle_key_event(Key::Left, false);
    assert!(matches!(e.as_slice(), [Effect::PlayerCommand(c)] if c.contains("seek\", -5,")));
    let e = app.handle_key_event(Key::Char(']'), false);
    assert!(matches!(e.as_slice(), [Effect::PlayerCommand(c)] if c.contains("seek\", 30,")));
    let e = app.handle_key_event(Key::Char('['), false);
    assert!(matches!(e.as_slice(), [Effect::PlayerCommand(c)] if c.contains("seek\", -30,")));
    app.handle_key_event(Key::Char('p'), false);
    assert!(app.playback.is_paused);
    let e = app.handle_key_event(Key::Char('x'), false);
    assert!(matches!(e.as_slice(), [Effect::StopPlayer, Effect::MediaPlaying(false)]));
    assert!(!app.playback.playing);
}

#[test]
fn space_marks_results_for_a_batch() {
    let mut app = app_with_results(3);
    app.handle_key_event(Key::Char(' '), false);
    app.handle_key_event(Key::Char('j'), false);
    app.handle_key_event(Key::Char(' '), false);
    assert_eq!(app.results.selected_playlist_indices, vec![0, 1]);
    app.handle_key_event(Key::Char(' '), false);
    assert_eq!(app.results.selected_playlist_indices, vec![0]);
}

#[test]
fn d_toggles_the_downloads_panel() {
    let mut app = app_with_results(1);
    let e = app.handle_key_event(Key::Char('d'), false);
    assert!(matches!(e.as_slice(), [Effect::RefreshLocalFiles(AfterScan::SelectFirst)]));
    assert!(app.downloads.show_panel);
    assert_eq!(app.state, AppState::Downloads);
    app.handle_key_event(Key::Tab, false);
    assert_eq!(app.state, AppState::Results);
    app.handle_key_event(Key::Char('d'), false);
    assert!(!app.downloads.show_panel);
}

#[test]
fn control_keys() {
    let mut app = app_with_results(1);
    app.handle_key_event(Key::Char('s'), true);
    assert_eq!(app.state, AppState::Settings);
    app.handle_key_event(Key::Char('s'), true);
    assert_eq!(app.state, AppState::Results);
    let before = app.prefs.animation_mode;
    let e = app.handle_key_event(Key::Char('a'), true);
    assert!(matches!(e.as_slice(), [Effect::SaveConfig]));
    assert_ne!(app.prefs.animation_mode, before);
    app.handle_key_event(Key::Char('q'), false);
    assert!(!app.running);
}

#[test]
fn editing_shortcuts() {
    let config = Config::with_download_directory("/tmp/x".to_string());
    let mut app = App::new(config, Settings::default(), Vec::new());
    for c in "lofi hip hop".chars() {
        app.handle_key_event(Key::Char(c), false);
    }
    app.handle_key_event(Key::Char('w'), true);
    assert_eq!(app.search.text(), "lofi hip ");
    app.handle_key_event(Key::Char('a'), true);
    assert_eq!(app.search.cursor(), 0);
    app.handle_key_event(Key::Char('k'), true);
    assert_eq!(app.search.text(), "");
}

#[test]
fn settings_limit_edit() {
    let mut app = app_with_results(1);
    app.handle_key_event(Key::Char('s'), true);
    app.handle_key_event(Key::Down, false);
    app.handle_key_event(Key::Down, false);
    assert_eq!(app.menus.settings_selected, Some(2));
    app.handle_key_event(Key::Enter, false);
    assert_eq!(app.input_mode, InputMode::Editing);
    assert_eq!(app.menus.settings_input.text(), "20");
    assert_eq!(app.status_message.as_deref(), Some("Enter new Search Limit: "));
    let e = app.handle_key_event(Key::Enter, false);
    assert!(matches!(e.as_slice(), [Effect::SaveConfig]));
    assert_eq!(app.prefs.search_limit, 20);
    assert_eq!(app.status_message.as_deref(), Some("Search Limit set to 20"));
    app.handle_key_event(Key::Enter, false);
    app.handle_key_event(Key::Backspace, false);
    app.handle_key_event(Key::Backspace, false);
    for c in "35".chars() {
        app.handle_key_event(Key::Char(c), false);
    }
    app.handle_key_event(Key::Enter, false);
    assert_eq!(app.prefs.search_limit, 35);
    assert_eq!(app.save_config().search_limit, 35);
    app.handle_key_event(Key::Enter, false);
    app.handle_key_event(Key::Char('x'), false);
    let e = app.handle_key_event(Key::Enter, false);
    assert!(e.is_empty());
    assert_eq!(app.prefs.search_limit, 35);
}
