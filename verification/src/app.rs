//! The application's state and the decisions it makes: what a key, a
//! click or a report from a worker does to the state, and which work it
//! hands to the caller.
use vstd::prelude::*;
use crate::text::{opt_text, decimal, str_eq, trim, trimmed, chars_of};
use crate::model::{Video, VideoFormat, LocalFile, DownloadTask, DownloadStatus, VideoType};
use crate::editor::LineBuffer;
use crate::widgets::{AnimationMode, SettingItem, animation_name, next_animation};
use crate::config::{Config, Settings, Logging, executables_of, cookies_of, executables_match_settings, cookies_match_mode};
use crate::state::{InputMode, AppState, AppAction, Key, Action, DownloadControl, DownloadDialogMode, FormatSelectionMode, Rect, AfterScan, Effect};
use crate::manager::DownloadManager;
use crate::yt::{is_url_query, has_playlist_code, blank_line, is_blank, is_url, playlist_code_in, wrap32, wrap64};
use crate::player::{line_ended, command_line, toggle_pause_text, toggle_pause_command, seek_text, seek_command, signed_decimal, push_signed};
use crate::text::{contains, str_contains};

verus! {

broadcast use vstd::string::group_string_axioms;

/// The names of the colour themes, in cycling order.
pub open spec fn theme_names() -> Seq<Seq<char>> {
    seq!["Default"@, "Dracula"@, "Matrix"@, "Cyberpunk"@, "Catppuccin"@]
}

/// The number of colour themes.
pub fn theme_count() -> (n: usize)
    ensures
        n == theme_names().len(),
{
    5
}

/// The name of theme `i`.
pub fn theme_name(i: usize) -> (s: &'static str)
    requires
        i < theme_names().len(),
    ensures
        s@ == theme_names()[i as int],
{
    if i == 0 {
        "Default"
    } else if i == 1 {
        "Dracula"
    } else if i == 2 {
        "Matrix"
    } else if i == 3 {
        "Cyberpunk"
    } else {
        "Catppuccin"
    }
}

/// The first theme from position `i` on named `name`, else the first theme.
pub open spec fn theme_from(name: Seq<char>, i: nat) -> nat
    decreases 5 - i,
{
    if i >= 5 {
        0
    } else if theme_names()[i as int] == name {
        i
    } else {
        theme_from(name, i + 1)
    }
}

/// The theme a configuration names: the first theme of that name, else the first theme.
pub open spec fn theme_index_for(name: Seq<char>) -> nat {
    theme_from(name, 0)
}

/// The index of the theme named `name` (the first theme when none is).
pub fn theme_index_of(name: &str) -> (i: usize)
    ensures
        i == theme_index_for(name@),
        i < theme_names().len(),
{
    let mut i: usize = 0;
    while i < 5
        invariant
            i <= 5,
            theme_index_for(name@) == theme_from(name@, i as nat),
        decreases 5 - i,
    {
        if str_eq(theme_name(i), name) {
            return i;
        }
        i = i + 1;
    }
    0
}

/// A list of the current playlist with the results it replaced.
pub struct PlaylistLevel {
    pub parent: Video,
    pub children: Vec<Video>,
    pub selected: Option<usize>,
}

/// Where the parts of the screen were drawn, and the first shown row of
/// each list, as the last frame left them.
#[derive(Clone, Copy)]
pub struct Layout {
    pub search_bar: Rect,
    pub main_content: Rect,
    pub downloads: Option<Rect>,
    pub playback_bar: Option<Rect>,
    pub action_menu: Option<Rect>,
    pub format_selection: Option<Rect>,
    pub settings: Option<Rect>,
    pub download_dialog: Option<Rect>,
    pub main_list_offset: usize,
    pub downloads_active_offset: usize,
    pub downloads_local_offset: usize,
    pub action_menu_offset: usize,
    pub format_selection_offset: usize,
    pub settings_offset: usize,
}

/// A position in the table of colour themes. The type keeps it a position
/// of the table, so the program can always look its theme up.
pub struct ThemeIndex {
    i: usize,
}

impl ThemeIndex {
    #[verifier::type_invariant]
    spec fn in_table(self) -> bool {
        self.i < 5
    }

    /// The theme at position `i`.
    pub fn new(i: usize) -> (t: ThemeIndex)
        requires
            i < theme_names().len(),
        ensures
            t@ == i,
    {
        ThemeIndex { i }
    }

    /// The position.
    pub fn get(&self) -> (i: usize)
        ensures
            i == self@,
            i < theme_names().len(),
    {
        proof {
            use_type_invariant(self);
        }
        self.i
    }

    /// The next theme, the first after the last.
    pub fn next(&self) -> (t: ThemeIndex)
        ensures
            t@ == (self@ + 1) % 5,
    {
        proof {
            use_type_invariant(self);
        }
        ThemeIndex { i: (self.i + 1) % 5 }
    }
}

impl View for ThemeIndex {
    type V = nat;

    /// The position (the type keeps the field within the table, so this
    /// is the field itself).
    closed spec fn view(&self) -> nat {
        (self.i % 5) as nat
    }
}

/// Every theme position is a position of the table.
pub proof fn lemma_theme_in_table(t: ThemeIndex)
    ensures
        t@ < theme_names().len(),
{
}

/// The choices the configuration file keeps.
pub struct Prefs {
    pub search_limit: u32,
    pub playlist_limit: u32,
    pub theme_index: ThemeIndex,
    pub download_directory: String,
    pub animation_mode: AnimationMode,
    pub show_live: bool,
    pub show_playlists: bool,
    pub settings: Settings,
}

/// The search results and the search that fills them.
pub struct Results {
    pub items: Vec<Video>,
    pub selected: Option<usize>,
    /// How far the running search is: entries received, of entries expected.
    pub progress: Option<(u32, u32)>,
    /// The first entry of the last page asked for.
    pub offset: u32,
    pub is_searching: bool,
    pub search_id: u64,
    /// Whether the query was an address rather than search words.
    pub is_url_mode: bool,
    /// Whether a playlist is open.
    pub is_playlist_mode: bool,
    /// The addresses whose full records were asked for.
    pub pending_resolution_ids: Vec<String>,
    pub playlist_stack: Vec<PlaylistLevel>,
    pub selected_playlist_indices: Vec<usize>,
    /// The ids of the videos whose thumbnails are at hand.
    pub cached_images: Vec<String>,
}

/// The player.
pub struct Playback {
    /// Whether a player is running with its control socket.
    pub playing: bool,
    pub title: Option<String>,
    pub duration_str: Option<String>,
    pub is_paused: bool,
    pub is_finishing: bool,
    pub is_audio: bool,
    pub is_terminal: bool,
    pub terminal_loading: bool,
    /// How far the terminal stream lookup seems, in percent.
    pub terminal_loading_progress: u32,
    pub terminal_ready_url: Option<String>,
    pub terminal_loading_error: Option<String>,
}

/// The downloads panel: the downloads, the finished files, and what is
/// selected in each.
pub struct Downloads {
    pub manager: DownloadManager,
    pub selected: Option<usize>,
    pub selected_set: Vec<usize>,
    pub local_files: Vec<LocalFile>,
    pub selected_local: Option<usize>,
    pub selected_local_set: Vec<usize>,
    pub show_panel: bool,
}

/// The menus and dialogs.
pub struct Menus {
    /// The value being typed in the settings menu.
    pub settings_input: LineBuffer,
    pub settings_editing_item: Option<SettingItem>,
    /// The selected entry of the settings menu.
    pub settings_selected: Option<usize>,
    pub formats: Vec<VideoFormat>,
    pub selected_format: Option<usize>,
    pub format_mode: FormatSelectionMode,
    pub dialog_mode: DownloadDialogMode,
    pub dialog_index: usize,
    /// The video the action menu acts on.
    pub action_video: Option<Video>,
}

/// The state of the application.
pub struct App {
    pub running: bool,
    pub input_mode: InputMode,
    pub state: AppState,
    pub previous_app_state: AppState,
    /// The search bar.
    pub search: LineBuffer,
    pub status_message: Option<String>,
    /// Playback the caller is to start: what, the address, the title.
    pub pending_action: Option<(AppAction, String, String)>,
    /// When (in nanoseconds) and where the last single click was.
    pub last_click: Option<(u64, u16, u16)>,
    pub pet_frame: usize,
    pub layout: Layout,
    pub prefs: Prefs,
    pub results: Results,
    pub playback: Playback,
    pub downloads: Downloads,
    pub menus: Menus,
}

/// The configuration that stores the choices: the theme's name, the limits,
/// the download directory, the animation, the two filters and the settings.
pub open spec fn config_matches(c: Config, p: Prefs) -> bool {
    &&& c.theme@ == theme_names()[p.theme_index@ as int]
    &&& c.search_limit == p.search_limit
    &&& c.playlist_limit == p.playlist_limit
    &&& c.download_directory == p.download_directory
    &&& c.animation == p.animation_mode
    &&& c.show_live == p.show_live
    &&& c.show_playlists == p.show_playlists
    &&& executables_match_settings(c.executables, p.settings)
    &&& cookies_match_mode(c.cookies, p.settings.cookie_mode)
    &&& c.logging.enabled == p.settings.enable_logging
    &&& c.logging.path == p.settings.log_path
}

/// `Some` of a text.
pub open spec fn text_is(o: Option<String>, t: Seq<char>) -> bool {
    opt_text(o) == Some(t)
}

/// `On` or `Off`.
pub open spec fn on_off(b: bool) -> Seq<char> {
    if b {
        "On"@
    } else {
        "Off"@
    }
}

/// A status line made of a prefix and a text.
pub fn message(prefix: &str, rest: &str) -> (r: Option<String>)
    ensures
        text_is(r, prefix@ + rest@),
{
    let mut s = String::from_str(prefix);
    s.append(rest);
    Some(s)
}

/// A status line that is exactly `text`.
pub fn message_of(text: &str) -> (r: Option<String>)
    ensures
        text_is(r, text@),
{
    Some(String::from_str(text))
}

impl App {
    /// The configuration that stores the choices of the application, as
    /// it is saved.
    pub fn save_config(&self) -> (c: Config)
        ensures
            config_matches(c, self.prefs),
    {
        let p = &self.prefs;
        Config {
            theme: String::from_str(theme_name(p.theme_index.get())),
            search_limit: p.search_limit,
            playlist_limit: p.playlist_limit,
            download_directory: p.download_directory.clone(),
            animation: p.animation_mode,
            show_live: p.show_live,
            show_playlists: p.show_playlists,
            executables: executables_of(&p.settings),
            cookies: cookies_of(&p.settings.cookie_mode),
            logging: Logging {
                enabled: p.settings.enable_logging,
                path: crate::model::copy_opt(&p.settings.log_path),
            },
        }
    }

    /// The application as it starts: editing the search bar, with the
    /// configuration's limits, directory, animation, filters and theme (the
    /// first theme when it names none known), and the files found in the
    /// download directory.
    pub fn new(config: Config, settings: Settings, local_files: Vec<LocalFile>) -> (a: App)
        ensures
            a.running && a.input_mode == InputMode::Editing,
            a.state == AppState::Search && a.previous_app_state == AppState::Search,
            a.search@ == (Seq::<char>::empty(), 0nat),
            a.status_message is None && a.pending_action is None,
            a.prefs.search_limit == config.search_limit && a.prefs.playlist_limit == config.playlist_limit,
            a.prefs.theme_index@ == theme_index_for(config.theme@),
            a.prefs.download_directory == config.download_directory,
            a.prefs.animation_mode == config.animation,
            a.prefs.show_live == config.show_live && a.prefs.show_playlists == config.show_playlists,
            a.prefs.settings == settings,
            a.results.items@.len() == 0 && a.results.selected is None,
            a.results.offset == 1 && !a.results.is_searching && a.results.search_id == 0,
            !a.results.is_url_mode && !a.results.is_playlist_mode,
            a.results.playlist_stack@.len() == 0,
            a.downloads.manager@.0.dom().len() == 0 && a.downloads.manager@.1.len() == 0,
            a.downloads.local_files@ == local_files@,
            a.downloads.selected_local is None && !a.downloads.show_panel,
            !a.playback.playing && !a.playback.is_paused && !a.playback.terminal_loading,
            a.menus.settings_input@ == (Seq::<char>::empty(), 0nat),
            a.last_click is None && a.pet_frame == 0,
            a.layout == initial_layout(),
            a.results.progress is None && a.results.pending_resolution_ids@.len() == 0,
            a.results.selected_playlist_indices@.len() == 0 && a.results.cached_images@.len() == 0,
            a.playback == (Playback {
                playing: false,
                title: None,
                duration_str: None,
                is_paused: false,
                is_finishing: false,
                is_audio: false,
                is_terminal: false,
                terminal_loading: false,
                terminal_loading_progress: 0,
                terminal_ready_url: None,
                terminal_loading_error: None,
            }),
            a.downloads.selected is None && a.downloads.selected_set@.len() == 0,
            a.downloads.selected_local_set@.len() == 0,
            a.menus.settings_editing_item is None && a.menus.settings_selected is None,
            a.menus.formats@.len() == 0 && a.menus.selected_format is None,
            a.menus.format_mode == FormatSelectionMode::Watch,
            a.menus.dialog_mode == DownloadDialogMode::Single && a.menus.dialog_index == 0,
            a.menus.action_video is None,
    {
        let theme_index = theme_index_of(config.theme.as_str());
        let zero = Rect { x: 0, y: 0, width: 0, height: 0 };
        let m = DownloadManager::new();
        proof {
            assert(m@.0.dom() =~= Set::<Seq<char>>::empty());
        }
        App {
            running: true,
            input_mode: InputMode::Editing,
            state: AppState::Search,
            previous_app_state: AppState::Search,
            search: LineBuffer::new(),
            status_message: None,
            pending_action: None,
            last_click: None,
            pet_frame: 0,
            layout: Layout {
                search_bar: zero,
                main_content: zero,
                downloads: None,
                playback_bar: None,
                action_menu: None,
                format_selection: None,
                settings: None,
                download_dialog: None,
                main_list_offset: 0,
                downloads_active_offset: 0,
                downloads_local_offset: 0,
                action_menu_offset: 0,
                format_selection_offset: 0,
                settings_offset: 0,
            },
            prefs: Prefs {
                search_limit: config.search_limit,
                playlist_limit: config.playlist_limit,
                theme_index: ThemeIndex::new(theme_index),
                download_directory: config.download_directory,
                animation_mode: config.animation,
                show_live: config.show_live,
                show_playlists: config.show_playlists,
                settings,
            },
            results: Results {
                items: Vec::new(),
                selected: None,
                progress: None,
                offset: 1,
                is_searching: false,
                search_id: 0,
                is_url_mode: false,
                is_playlist_mode: false,
                pending_resolution_ids: Vec::new(),
                playlist_stack: Vec::new(),
                selected_playlist_indices: Vec::new(),
                cached_images: Vec::new(),
            },
            playback: Playback {
                playing: false,
                title: None,
                duration_str: None,
                is_paused: false,
                is_finishing: false,
                is_audio: false,
                is_terminal: false,
                terminal_loading: false,
                terminal_loading_progress: 0,
                terminal_ready_url: None,
                terminal_loading_error: None,
            },
            downloads: Downloads {
                manager: m,
                selected: None,
                selected_set: Vec::new(),
                local_files,
                selected_local: None,
                selected_local_set: Vec::new(),
                show_panel: false,
            },
            menus: Menus {
                settings_input: LineBuffer::new(),
                settings_editing_item: None,
                settings_selected: None,
                formats: Vec::new(),
                selected_format: None,
                format_mode: FormatSelectionMode::Watch,
                dialog_mode: DownloadDialogMode::Single,
                dialog_index: 0,
                action_video: None,
            },
        }
    }
}

/// The layout before anything was drawn: every area empty and every list
/// at its top.
pub open spec fn initial_layout() -> Layout {
    let zero = Rect { x: 0, y: 0, width: 0, height: 0 };
    Layout {
        search_bar: zero,
        main_content: zero,
        downloads: None,
        playback_bar: None,
        action_menu: None,
        format_selection: None,
        settings: None,
        download_dialog: None,
        main_list_offset: 0,
        downloads_active_offset: 0,
        downloads_local_offset: 0,
        action_menu_offset: 0,
        format_selection_offset: 0,
        settings_offset: 0,
    }
}

/// The end of the first page a search asks for: the playlist limit for a
/// playlist address, one entry for any other address, the search limit for
/// search words.
pub open spec fn first_page_end(q: Seq<char>, search_limit: u32, playlist_limit: u32) -> u32 {
    if is_url_query(q) && (contains(q, "list="@) || contains(q, "/playlist/"@) || has_playlist_code(q)) {
        playlist_limit
    } else if is_url_query(q) {
        1
    } else {
        search_limit
    }
}

/// The effect that starts a search.
pub open spec fn search_effect(e: Effect, query: Seq<char>, start: u32, end: u32, id: u64, show_live: bool, show_playlists: bool) -> bool {
    e matches Effect::Search { query: q, start: s, end: en, search_id: i, show_live: l, show_playlists: p }
        && q@ == query && s == start && en == end && i == id && l == show_live && p == show_playlists
}

/// The effects that stop the player.
pub open spec fn stop_effects(e: Seq<Effect>) -> bool {
    e == seq![Effect::StopPlayer, Effect::MediaPlaying(false)]
}

/// The player after it is stopped: nothing plays or loads.
pub open spec fn stopped_playback(p: Playback) -> Playback {
    Playback {
        playing: false,
        title: None,
        duration_str: None,
        is_paused: false,
        is_finishing: false,
        terminal_loading: false,
        terminal_loading_error: None,
        terminal_ready_url: None,
        ..p
    }
}

/// The state after the player is stopped, with the status `Stopped.`.
pub open spec fn stopped(a: App, b: App) -> bool {
    &&& b == App { playback: stopped_playback(a.playback), status_message: b.status_message, ..a }
    &&& text_is(b.status_message, "Stopped."@)
}

/// A search started from state `a` with the text of its search bar: the
/// results, their selection and the playlists opened are dropped, and the
/// first page is asked for under a new search id.
pub open spec fn search_started(a: App, b: App, e: Seq<Effect>) -> bool {
    let q = a.search@.0;
    let id = wrap64(a.results.search_id + 1);
    &&& b == App {
        input_mode: InputMode::Normal,
        results: Results {
            items: b.results.items,
            pending_resolution_ids: b.results.pending_resolution_ids,
            selected: None,
            playlist_stack: b.results.playlist_stack,
            selected_playlist_indices: b.results.selected_playlist_indices,
            progress: Some((0u32, 1u32)),
            is_searching: true,
            search_id: id,
            is_url_mode: is_url_query(q),
            offset: 1,
            ..a.results
        },
        status_message: b.status_message,
        ..a
    }
    &&& b.results.items@.len() == 0
    &&& b.results.pending_resolution_ids@.len() == 0
    &&& b.results.playlist_stack@.len() == 0
    &&& b.results.selected_playlist_indices@.len() == 0
    &&& text_is(b.status_message, "Searching for '"@ + q + "'..."@)
    &&& e.len() == 1
    &&& search_effect(e[0], q, 1, first_page_end(q, a.prefs.search_limit, a.prefs.playlist_limit), id, a.prefs.show_live, a.prefs.show_playlists)
}

/// What a search request does: nothing when the search bar is blank, else
/// the search of `search_started`.
pub open spec fn searched(a: App, b: App, e: Seq<Effect>) -> bool {
    if blank_line(a.search@.0) {
        b == a && e.len() == 0
    } else {
        search_started(a, b, e)
    }
}

/// The `seek` outcome: with a player, a seek by `s` seconds and its status
/// line; without one, nothing.
pub open spec fn sought(a: App, b: App, e: Seq<Effect>, s: int) -> bool {
    if a.playback.playing {
        &&& b == App { status_message: b.status_message, ..a }
        &&& text_is(b.status_message, "Seeked "@ + signed_decimal(s) + "s"@)
        &&& e.len() == 1 && (e[0] matches Effect::PlayerCommand(c) && c@ == seek_text(s))
    } else {
        b == a && e.len() == 0
    }
}

/// The `toggle_pause` outcome: with a player, pause switched, the player
/// told, and the media controls told whether it plays; without one, nothing.
pub open spec fn pause_toggled(a: App, b: App, e: Seq<Effect>) -> bool {
    if a.playback.playing {
        &&& b == App {
            playback: Playback { is_paused: !a.playback.is_paused, ..a.playback },
            status_message: b.status_message,
            ..a
        }
        &&& text_is(b.status_message, if b.playback.is_paused { "Paused"@ } else { "Resumed"@ })
        &&& e.len() == 2 && (e[0] matches Effect::PlayerCommand(c) && c@ == toggle_pause_text())
        &&& e[1] == Effect::MediaPlaying(!b.playback.is_paused)
    } else {
        b == a && e.len() == 0
    }
}

/// The `load_more` outcome: unless a search runs or the search bar is
/// blank, the next page of the search (the offset moved on by the search
/// limit, in wrapping `u32` arithmetic) is asked for.
pub open spec fn more_loaded(a: App, b: App, e: Seq<Effect>) -> bool {
    if a.results.is_searching || blank_line(a.search@.0) {
        b == a && e.len() == 0
    } else {
        let offset = wrap32(a.results.offset + a.prefs.search_limit);
        &&& b == App {
            results: Results { is_searching: true, offset: offset, progress: Some((0u32, 1u32)), ..a.results },
            status_message: b.status_message,
            ..a
        }
        &&& text_is(b.status_message, "Loading more..."@)
        &&& e.len() == 1
        &&& search_effect(
            e[0],
            a.search@.0,
            offset,
            wrap32(offset + wrap32(a.prefs.search_limit - 1)),
            a.results.search_id,
            a.prefs.show_live,
            a.prefs.show_playlists,
        )
    }
}

/// The outcome of moving the result selection by `delta`.
pub open spec fn selection_moved(a: App, b: App, e: Seq<Effect>, delta: int) -> bool {
    if a.results.items@.len() == 0 {
        b == App { results: Results { selected: None, ..a.results }, ..a } && e.len() == 0
    } else {
        let n = moved_selection(a.results.selected, delta, a.results.items@.len(), a.results.is_url_mode);
        &&& b == App { results: Results { selected: Some(n as usize), ..a.results }, ..a }
        &&& n < a.results.items@.len() ==> image_request(b.results, e)
        &&& n >= a.results.items@.len() ==> e.len() == 0
    }
}

impl App {
    /// Stops the player: nothing plays any more.
    pub fn stop_playback(&mut self) -> (effects: Vec<Effect>)
        ensures
            stopped(*old(self), *final(self)),
            stop_effects(effects@),
    {
        self.playback.playing = false;
        self.playback.title = None;
        self.playback.duration_str = None;
        self.playback.is_paused = false;
        self.playback.is_finishing = false;
        self.playback.terminal_loading = false;
        self.playback.terminal_loading_error = None;
        self.playback.terminal_ready_url = None;
        self.status_message = message_of("Stopped.");
        vec![Effect::StopPlayer, Effect::MediaPlaying(false)]
    }

    /// A command for the player, written only while one plays.
    pub fn send_command(&self, cmd: &str) -> (effects: Vec<Effect>)
        ensures
            !self.playback.playing ==> effects@.len() == 0,
            self.playback.playing ==> effects@.len() == 1 && (effects@[0] matches Effect::PlayerCommand(c)
                && c@ == line_ended(cmd@)),
    {
        if self.playback.playing {
            vec![Effect::PlayerCommand(command_line(cmd))]
        } else {
            Vec::new()
        }
    }

    /// Pauses or resumes the player, if one plays (see `pause_toggled`).
    pub fn toggle_pause(&mut self) -> (effects: Vec<Effect>)
        ensures
            pause_toggled(*old(self), *final(self), effects@),
    {
        if !self.playback.playing {
            return Vec::new();
        }
        self.playback.is_paused = !self.playback.is_paused;
        let cmd = toggle_pause_command();
        self.status_message = if self.playback.is_paused {
            message_of("Paused")
        } else {
            message_of("Resumed")
        };
        vec![Effect::PlayerCommand(cmd), Effect::MediaPlaying(!self.playback.is_paused)]
    }

    /// Seeks the player by `seconds`, if one plays (see `sought`).
    pub fn seek(&mut self, seconds: i32) -> (effects: Vec<Effect>)
        ensures
            sought(*old(self), *final(self), effects@, seconds as int),
    {
        if !self.playback.playing {
            return Vec::new();
        }
        let cmd = seek_command(seconds);
        let mut m = String::from_str("Seeked ");
        push_signed(&mut m, seconds);
        m.append("s");
        self.status_message = Some(m);
        vec![Effect::PlayerCommand(cmd)]
    }

    /// Starts a search for the text of the search bar, unless it is blank
    /// (see `searched`).
    pub fn perform_search(&mut self) -> (effects: Vec<Effect>)
        ensures
            searched(*old(self), *final(self), effects@),
    {
        let query = self.search.text();
        if is_blank(query.as_str()) {
            return Vec::new();
        }
        self.input_mode = InputMode::Normal;
        self.results.items = Vec::new();
        self.results.pending_resolution_ids = Vec::new();
        self.results.selected = None;
        self.results.playlist_stack = Vec::new();
        self.results.selected_playlist_indices = Vec::new();
        self.results.progress = Some((0, 1));
        self.results.is_searching = true;
        self.results.search_id = self.results.search_id.wrapping_add(1);
        assert(self.results.search_id == wrap64(old(self).results.search_id + 1)) by {
            assert(0x1_0000_0000_0000_0000 == u64::MAX + 1);
        }
        let mut m = String::from_str("Searching for '");
        m.append(query.as_str());
        m.append("'...");
        self.status_message = Some(m);
        let url = is_url(query.as_str());
        self.results.is_url_mode = url;
        let direct = url && (str_contains(query.as_str(), "list=") || str_contains(query.as_str(), "/playlist/")
            || playlist_code_in(query.as_str()));
        self.results.offset = 1;
        let end = if direct {
            self.prefs.playlist_limit
        } else if url {
            1
        } else {
            self.prefs.search_limit
        };
        vec![
            Effect::Search {
                query,
                start: 1,
                end,
                search_id: self.results.search_id,
                show_live: self.prefs.show_live,
                show_playlists: self.prefs.show_playlists,
            },
        ]
    }

    /// Asks for the next page of the current search, unless one is running
    /// or the search bar is blank (see `more_loaded`).
    pub fn load_more(&mut self) -> (effects: Vec<Effect>)
        ensures
            more_loaded(*old(self), *final(self), effects@),
    {
        let query = self.search.text();
        if self.results.is_searching || is_blank(query.as_str()) {
            return Vec::new();
        }
        self.results.is_searching = true;
        self.results.offset = self.results.offset.wrapping_add(self.prefs.search_limit);
        assert(self.results.offset == wrap32(old(self).results.offset + old(self).prefs.search_limit)) by {
            assert(0x1_0000_0000 == u32::MAX + 1);
        }
        self.results.progress = Some((0, 1));
        self.status_message = message_of("Loading more...");
        let last = self.prefs.search_limit.wrapping_sub(1);
        let end = self.results.offset.wrapping_add(last);
        assert(end == wrap32(self.results.offset + wrap32(old(self).prefs.search_limit - 1))) by {
            assert(0x1_0000_0000 == u32::MAX + 1);
        }
        vec![
            Effect::Search {
                query,
                start: self.results.offset,
                end,
                search_id: self.results.search_id,
                show_live: self.prefs.show_live,
                show_playlists: self.prefs.show_playlists,
            },
        ]
    }

    /// Moves the result selection by `delta` rows (see `selection_moved`).
    pub fn move_results(&mut self, delta: i32) -> (effects: Vec<Effect>)
        requires
            delta != i32::MIN,
        ensures
            selection_moved(*old(self), *final(self), effects@, delta as int),
    {
        self.results.move_selection(delta)
    }

    /// Pasted text goes into the search bar at the cursor, which moves past
    /// it; pasting also starts editing.
    pub fn handle_paste(&mut self, text: &str)
        ensures
            *final(self) == (App { input_mode: InputMode::Editing, search: final(self).search, ..*old(self) }),
            final(self).search@.0 == old(self).search@.0.take(old(self).search@.1 as int) + text@
                + old(self).search@.0.skip(old(self).search@.1 as int),
            final(self).search@.1 == old(self).search@.1 + text@.len(),
    {
        self.input_mode = InputMode::Editing;
        self.search.insert_str(text);
    }
}

/// Whether the thumbnail of the video `id` is at hand.
pub open spec fn image_cached(cached: Seq<String>, id: Seq<char>) -> bool {
    exists|k: int| 0 <= k < cached.len() && #[trigger] cached[k]@ == id
}

/// The effects that ask for the thumbnail of the selected result: one
/// request when a result is selected, its thumbnail is not at hand and it
/// has an address for one.
pub open spec fn image_request(r: Results, e: Seq<Effect>) -> bool {
    match r.selected {
        Some(i) => if 0 <= i < r.items@.len() && !image_cached(r.cached_images@, r.items@[i as int].id@)
            && r.items@[i as int].thumbnail_url is Some {
            e == seq![Effect::FetchImage(r.items@[i as int].id, r.items@[i as int].thumbnail_url.unwrap())]
        } else {
            e.len() == 0
        },
        None => e.len() == 0,
    }
}

/// The selection after moving it by `delta` in a list of `n` results,
/// counting the `load more` row after them unless an address was opened.
pub open spec fn moved_selection(current: Option<usize>, delta: int, n: nat, url_mode: bool) -> nat {
    let last: int = if !url_mode { n as int } else { n - 1 };
    let cur: int = match current {
        Some(c) => c as int,
        None => 0,
    };
    if delta > 0 {
        if cur + delta < last { (cur + delta) as nat } else { last as nat }
    } else {
        if cur + delta > 0 { (cur + delta) as nat } else { 0 }
    }
}

/// The local file selection after a rescan found `n` files: the first file
/// when none was selected, the last when the selection fell off the end,
/// none when there are no files.
pub open spec fn kept_file_selection(sel: Option<usize>, n: nat) -> Option<usize> {
    if n == 0 {
        None
    } else {
        match sel {
            None => Some(0),
            Some(i) => if i >= n { Some((n - 1) as usize) } else { Some(i) },
        }
    }
}

/// The height of the active-downloads part of the downloads panel: four
/// tenths of the panel, rounded, when there are downloads.
pub open spec fn active_rows(height: u16, has_active: bool) -> int {
    if has_active {
        (4 * height + 5) / 10
    } else {
        0
    }
}

/// The downloads panel after a rescan found `files`.
pub open spec fn rescanned(d: Downloads, files: Vec<LocalFile>) -> Downloads {
    Downloads { local_files: files, selected_local: kept_file_selection(d.selected_local, files@.len()), ..d }
}

/// The first entry of the downloads panel selected: the first download,
/// else the first local file, else nothing changes.
pub open spec fn first_entry(d: Downloads) -> Downloads {
    if d.manager@.1.len() > 0 {
        Downloads { selected: Some(0), selected_local: None, ..d }
    } else if d.local_files@.len() > 0 {
        Downloads { selected: None, selected_local: Some(0), ..d }
    } else {
        d
    }
}

/// A double click opens the action menu over the current screen.
pub open spec fn menu_on_double(c: App, double_click: bool) -> App {
    if double_click {
        App { previous_app_state: c.state, state: AppState::ActionMenu, ..c }
    } else {
        c
    }
}

/// The state after a click at row `y` of the downloads panel `area`: on a
/// row of the active downloads or of the local files, that entry is
/// selected (and the other list's selection dropped); a double click opens
/// the action menu.
pub open spec fn downloads_clicked(a: App, b: App, area: Rect, y: u16, double_click: bool) -> bool {
    let d = a.downloads;
    let has_active = d.manager@.1.len() > 0;
    let active = active_rows(area.height, has_active);
    if has_active && y < area.y + active {
        let start = area.y + 2;
        let idx = a.layout.downloads_active_offset + (y - start);
        if y >= start && idx < d.manager@.1.len() {
            b == menu_on_double(
                App { downloads: Downloads { selected: Some(idx as usize), selected_local: None, ..d }, ..a },
                double_click,
            )
        } else {
            b == a
        }
    } else {
        let start = if has_active { area.y + active + 2 } else { area.y + 2 };
        let idx = a.layout.downloads_local_offset + (y - start);
        if y >= start && idx < d.local_files@.len() {
            b == menu_on_double(
                App { downloads: Downloads { selected_local: Some(idx as usize), selected: None, ..d }, ..a },
                double_click,
            )
        } else {
            b == a
        }
    }
}

impl Results {
    /// Whether the thumbnail of `id` is at hand.
    pub fn has_image(&self, id: &str) -> (b: bool)
        ensures
            b == image_cached(self.cached_images@, id@),
    {
        let mut k: usize = 0;
        while k < self.cached_images.len()
            invariant
                k <= self.cached_images@.len(),
                forall|j: int| 0 <= j < k ==> self.cached_images@[j]@ != id@,
            decreases self.cached_images.len() - k,
        {
            if str_eq(self.cached_images[k].as_str(), id) {
                return true;
            }
            k = k + 1;
        }
        false
    }

    /// Asks for the thumbnail of the selected result, if it is needed.
    pub fn request_image_for_selection(&self) -> (effects: Vec<Effect>)
        ensures
            image_request(*self, effects@),
    {
        if let Some(idx) = self.selected {
            if idx < self.items.len() {
                let v = &self.items[idx];
                if !self.has_image(v.id.as_str()) {
                    match &v.thumbnail_url {
                        Some(url) => {
                            let id = v.id.clone();
                            let u = url.clone();
                            let e = vec![Effect::FetchImage(id, u)];
                            assert(e@ =~= seq![
                                Effect::FetchImage(self.items@[idx as int].id, self.items@[idx as int].thumbnail_url.unwrap()),
                            ]);
                            return e;
                        },
                        None => {},
                    }
                }
            }
        }
        Vec::new()
    }

    /// Moves the selection by `delta` rows (see `moved_selection`); with no
    /// results nothing is selected.
    pub fn move_selection(&mut self, delta: i32) -> (effects: Vec<Effect>)
        requires
            delta != i32::MIN,
        ensures
            old(self).items@.len() == 0 ==> *final(self) == (Results { selected: None, ..*old(self) })
                && effects@.len() == 0,
            old(self).items@.len() > 0 ==> {
                let n = moved_selection(old(self).selected, delta as int, old(self).items@.len(), old(self).is_url_mode);
                &&& *final(self) == Results { selected: Some(n as usize), ..*old(self) }
                &&& n < old(self).items@.len() ==> image_request(*final(self), effects@)
                &&& n >= old(self).items@.len() ==> effects@.len() == 0
            },
    {
        let n = self.items.len();
        if n == 0 {
            self.selected = None;
            return Vec::new();
        }
        let last: usize = if !self.is_url_mode {
            n
        } else {
            n - 1
        };
        let current: usize = match self.selected {
            Some(c) => c,
            None => 0,
        };
        let new_index: usize = if delta > 0 {
            let step = delta as usize;
            if current < last && step < last - current {
                current + step
            } else {
                last
            }
        } else {
            let step: usize = (0i64 - delta as i64) as usize;
            if current > step {
                current - step
            } else {
                0
            }
        };
        self.selected = Some(new_index);
        if new_index < n {
            self.request_image_for_selection()
        } else {
            Vec::new()
        }
    }
}

impl Downloads {
    /// Takes the files a rescan of the download directory found (see `rescanned`).
    pub fn refresh_local_files(&mut self, files: Vec<LocalFile>)
        ensures
            *final(self) == rescanned(*old(self), files),
    {
        let n = files.len();
        self.local_files = files;
        if n > 0 {
            match self.selected_local {
                None => {
                    self.selected_local = Some(0);
                },
                Some(i) => {
                    if i >= n {
                        self.selected_local = Some(n - 1);
                    }
                },
            }
        } else {
            self.selected_local = None;
        }
    }

    /// Selects the first entry of the panel (see `first_entry`).
    pub fn select_first_entry(&mut self)
        ensures
            *final(self) == first_entry(*old(self)),
    {
        if !self.manager.is_empty() {
            self.selected = Some(0);
            self.selected_local = None;
        } else if self.local_files.len() > 0 {
            self.selected = None;
            self.selected_local = Some(0);
        }
    }
}

impl App {
    /// Takes the files a rescan of the download directory found (see
    /// `rescanned`), then does what waited for them.
    pub fn local_files_scanned(&mut self, files: Vec<LocalFile>, after: AfterScan) -> (effects: Vec<Effect>)
        ensures
            effects@.len() == 0,
            ({
                let mid = App { downloads: rescanned(old(self).downloads, files), ..*old(self) };
                match after {
                    AfterScan::Nothing => *final(self) == mid,
                    AfterScan::SelectFirst => *final(self) == App { downloads: first_entry(mid.downloads), ..mid },
                    AfterScan::DownloadsClick { y, double_click } => match mid.layout.downloads {
                        Some(area) => downloads_clicked(mid, *final(self), area, y, double_click),
                        None => *final(self) == mid,
                    },
                }
            }),
    {
        self.downloads.refresh_local_files(files);
        match after {
            AfterScan::Nothing => {},
            AfterScan::SelectFirst => {
                self.downloads.select_first_entry();
            },
            AfterScan::DownloadsClick { y, double_click } => {
                if let Some(area) = self.layout.downloads {
                    self.downloads_clicked_at(area, y, double_click);
                }
            },
        }
        Vec::new()
    }

    /// Selects the entry of the downloads panel `area` at row `y` (see
    /// `downloads_clicked`).
    pub fn downloads_clicked_at(&mut self, area: Rect, y: u16, double_click: bool)
        ensures
            downloads_clicked(*old(self), *final(self), area, y, double_click),
    {
        let active_count = self.downloads.manager.len();
        let local_count = self.downloads.local_files.len();
        let has_active = active_count > 0;
        let active: u32 = if has_active {
            (4 * (area.height as u32) + 5) / 10
        } else {
            0
        };
        if has_active && (y as u32) < (area.y as u32) + active {
            let start: u32 = area.y as u32 + 2;
            if (y as u32) >= start {
                let rel = ((y as u32) - start) as usize;
                if self.layout.downloads_active_offset < usize::MAX - rel {
                    let idx = self.layout.downloads_active_offset + rel;
                    if idx < active_count {
                        self.downloads.selected = Some(idx);
                        self.downloads.selected_local = None;
                        if double_click {
                            self.previous_app_state = self.state;
                            self.state = AppState::ActionMenu;
                        }
                    }
                }
            }
        } else {
            let start: u32 = if has_active {
                area.y as u32 + active + 2
            } else {
                area.y as u32 + 2
            };
            if (y as u32) >= start {
                let rel = ((y as u32) - start) as usize;
                if self.layout.downloads_local_offset < usize::MAX - rel {
                    let idx = self.layout.downloads_local_offset + rel;
                    if idx < local_count {
                        self.downloads.selected_local = Some(idx);
                        self.downloads.selected = None;
                        if double_click {
                            self.previous_app_state = self.state;
                            self.state = AppState::ActionMenu;
                        }
                    }
                }
            }
        }
    }

    /// Switches to the next colour theme and saves the choice (see `theme_changed`).
    pub fn change_theme(&mut self) -> (effects: Vec<Effect>)
        ensures
            theme_changed(*old(self), *final(self), effects@),
    {
        self.prefs.theme_index = self.prefs.theme_index.next();
        self.status_message = message("Theme: ", theme_name(self.prefs.theme_index.get()));
        let e = vec![Effect::SaveConfig];
        assert(e@ =~= seq![Effect::SaveConfig]);
        e
    }

    /// Switches to the next logo animation and saves the choice (see
    /// `next_animation_chosen`).
    pub fn toggle_animation(&mut self) -> (effects: Vec<Effect>)
        ensures
            next_animation_chosen(*old(self), *final(self), effects@),
    {
        self.prefs.animation_mode = self.prefs.animation_mode.next();
        self.status_message = message("Animation: ", self.prefs.animation_mode.name());
        let e = vec![Effect::SaveConfig];
        assert(e@ =~= seq![Effect::SaveConfig]);
        e
    }

    /// Shows or hides live streams, saves the choice, and searches again
    /// while search results are shown.
    pub fn toggle_live(&mut self) -> (effects: Vec<Effect>)
        ensures
            refiltered(
                *old(self),
                *final(self),
                effects@,
                Prefs { show_live: !old(self).prefs.show_live, ..old(self).prefs },
                "Show Live: "@ + on_off(!old(self).prefs.show_live),
            ),
    {
        self.prefs.show_live = !self.prefs.show_live;
        self.status_message = message("Show Live: ", if self.prefs.show_live { "On" } else { "Off" });
        let mut effects = vec![Effect::SaveConfig];
        if self.state == AppState::Results && !self.results.is_url_mode {
            let mut more = self.perform_search();
            effects.append(&mut more);
        }
        assert(effects@.skip(1) =~= effects@.subrange(1, effects@.len() as int));
        effects
    }

    /// Shows or hides playlists, saves the choice, and searches again while
    /// search results are shown.
    pub fn toggle_playlists(&mut self) -> (effects: Vec<Effect>)
        ensures
            refiltered(
                *old(self),
                *final(self),
                effects@,
                Prefs { show_playlists: !old(self).prefs.show_playlists, ..old(self).prefs },
                "Show Playlists: "@ + on_off(!old(self).prefs.show_playlists),
            ),
    {
        self.prefs.show_playlists = !self.prefs.show_playlists;
        self.status_message = message("Show Playlists: ", if self.prefs.show_playlists { "On" } else { "Off" });
        let mut effects = vec![Effect::SaveConfig];
        if self.state == AppState::Results && !self.results.is_url_mode {
            let mut more = self.perform_search();
            effects.append(&mut more);
        }
        assert(effects@.skip(1) =~= effects@.subrange(1, effects@.len() as int));
        effects
    }

    /// Opens the settings menu at its first entry, or closes it.
    pub fn toggle_settings(&mut self)
        ensures
            old(self).state == AppState::Settings ==> *final(self) == (App {
                state: old(self).previous_app_state,
                ..*old(self)
            }),
            old(self).state != AppState::Settings ==> *final(self) == (App {
                previous_app_state: old(self).state,
                state: AppState::Settings,
                menus: Menus { settings_selected: Some(0), ..old(self).menus },
                ..*old(self)
            }),
    {
        if self.state == AppState::Settings {
            self.state = self.previous_app_state;
        } else {
            self.previous_app_state = self.state;
            self.state = AppState::Settings;
            self.menus.settings_selected = Some(0);
        }
    }
}

/// The next colour theme chosen (cycling), said on the status line, and saved.
pub open spec fn theme_changed(a: App, b: App, e: Seq<Effect>) -> bool {
    let i = (a.prefs.theme_index@ + 1) % 5;
    &&& b == App {
        prefs: Prefs { theme_index: b.prefs.theme_index, ..a.prefs },
        status_message: b.status_message,
        ..a
    }
    &&& b.prefs.theme_index@ == i
    &&& text_is(b.status_message, "Theme: "@ + theme_names()[i as int])
    &&& e == seq![Effect::SaveConfig]
}

/// The next logo animation chosen (cycling), said on the status line, and saved.
pub open spec fn next_animation_chosen(a: App, b: App, e: Seq<Effect>) -> bool {
    let m = next_animation(a.prefs.animation_mode);
    &&& b == App { prefs: Prefs { animation_mode: m, ..a.prefs }, status_message: b.status_message, ..a }
    &&& text_is(b.status_message, "Animation: "@ + animation_name(m))
    &&& e == seq![Effect::SaveConfig]
}

/// A filter switched: the choices become `prefs`, the status line says
/// `msg`, the choice is saved, and while search results are shown (for
/// search words) the search runs again.
pub open spec fn refiltered(a: App, b: App, e: Seq<Effect>, prefs: Prefs, msg: Seq<char>) -> bool {
    let mid = App { prefs, status_message: b.status_message, ..a };
    &&& e.len() >= 1 && e[0] == Effect::SaveConfig
    &&& if a.state == AppState::Results && !a.results.is_url_mode {
        if blank_line(a.search@.0) {
            b == mid && text_is(b.status_message, msg) && e.len() == 1
        } else {
            exists|m: Option<String>| text_is(m, msg) && search_started(App { status_message: m, ..mid }, b, e.skip(1))
        }
    } else {
        b == mid && text_is(b.status_message, msg) && e.len() == 1
    }
}

/// What the main area shows besides the result rows: the greeting in place
/// of the list, and a row after the results that loads more.
#[derive(Clone, Copy, PartialEq, Eq, Debug)]
pub struct MainView {
    pub greeting: bool,
    pub load_more: bool,
}

impl App {
    /// The rows of the main area: the greeting while the search bar is
    /// empty; the row that loads more while there are results and more can
    /// be had (after search words, or in a playlist).
    pub fn main_view(&self) -> (v: MainView)
        ensures
            v.greeting == (self.search@.0.len() == 0),
            v.load_more == (self.results.items@.len() > 0 && (!self.results.is_url_mode
                || self.results.is_playlist_mode)),
    {
        MainView {
            greeting: self.search.is_empty(),
            load_more: self.results.items.len() > 0 && (!self.results.is_url_mode || self.results.is_playlist_mode),
        }
    }
}

} // verus!
