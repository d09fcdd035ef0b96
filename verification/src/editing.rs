//! What keys do in the settings menu and while a line is typed.
use vstd::prelude::*;
use crate::text::{opt_text, decimal, parse_u32, parse_u32_text, push_decimal};
use crate::editor::{LineBuffer, EditOp, edited};
use crate::widgets::{SettingItem, setting_order};
use crate::config::{Settings, CookieMode};
use crate::state::{InputMode, AppState, Key, Effect};
use crate::app::{
    App, Menus, Prefs, text_is, message, message_of, theme_names, refiltered, searched, next_animation_chosen,
    theme_changed,
};
use crate::yt::is_blank;

verus! {

broadcast use vstd::string::group_string_axioms;

/// Editing of a settings value has begun: typing goes to the settings
/// line, which holds `text` with the cursor at its end, and the status line
/// asks for the value.
pub open spec fn edit_started(a: App, b: App, e: Seq<Effect>, item: SettingItem, text: Seq<char>, msg: Seq<char>) -> bool {
    &&& b == App {
        input_mode: InputMode::Editing,
        menus: Menus { settings_editing_item: Some(item), settings_input: b.menus.settings_input, ..a.menus },
        status_message: b.status_message,
        ..a
    }
    &&& b.menus.settings_input@ == (text, text.len())
    &&& text_is(b.status_message, msg)
    &&& e.len() == 0
}

/// A switch of the settings flipped: the settings become `s`, the status
/// line says `msg` (when given) and the configuration is saved.
pub open spec fn switch_flipped(a: App, b: App, e: Seq<Effect>, s: Settings) -> bool {
    b == App { prefs: Prefs { settings: s, ..a.prefs }, status_message: b.status_message, ..a }
}

/// What choosing a settings entry does: the theme, the animation and the
/// two filters switch (as their shortcuts do); the limits and the download
/// directory start editing their value; logging, custom paths and cookies
/// are switched and saved.
pub open spec fn setting_chosen(a: App, b: App, e: Seq<Effect>, item: SettingItem) -> bool {
    let s = a.prefs.settings;
    match item {
        SettingItem::Theme => theme_changed(a, b, e),
        SettingItem::Animation => next_animation_chosen(a, b, e),
        SettingItem::ShowLive => refiltered(
            a,
            b,
            e,
            Prefs { show_live: !a.prefs.show_live, ..a.prefs },
            "Show Live: "@ + crate::app::on_off(!a.prefs.show_live),
        ),
        SettingItem::ShowPlaylists => refiltered(
            a,
            b,
            e,
            Prefs { show_playlists: !a.prefs.show_playlists, ..a.prefs },
            "Show Playlists: "@ + crate::app::on_off(!a.prefs.show_playlists),
        ),
        SettingItem::SearchLimit => edit_started(
            a,
            b,
            e,
            item,
            decimal(a.prefs.search_limit as nat),
            "Enter new Search Limit: "@,
        ),
        SettingItem::PlaylistLimit => edit_started(
            a,
            b,
            e,
            item,
            decimal(a.prefs.playlist_limit as nat),
            "Enter new Playlist Limit: "@,
        ),
        SettingItem::DownloadDirectory => edit_started(
            a,
            b,
            e,
            item,
            a.prefs.download_directory@,
            "Enter new Download Directory: "@,
        ),
        SettingItem::EnableLogging => switch_flipped(a, b, e, Settings { enable_logging: !s.enable_logging, ..s })
            && b.status_message == a.status_message && e == seq![Effect::ReportLogPath, Effect::SaveConfig],
        SettingItem::UseCustomPaths => switch_flipped(a, b, e, Settings { use_custom_paths: !s.use_custom_paths, ..s })
            && text_is(b.status_message, "Toggled. Change binary paths in config.toml if needed."@)
            && e == seq![Effect::SaveConfig],
        SettingItem::CookieMode => if s.cookie_mode == CookieMode::Off {
            switch_flipped(a, b, e, Settings { cookie_mode: CookieMode::Unsetted, ..s })
                && text_is(b.status_message, "Enabled. Configure cookie source in config.toml."@)
                && e == seq![Effect::SaveConfig]
        } else {
            switch_flipped(a, b, e, Settings { cookie_mode: CookieMode::Off, ..s })
                && text_is(b.status_message, "Disabled."@) && e == seq![Effect::SaveConfig]
        },
    }
}

/// The selected settings entry, counting from the top (the first when
/// none is selected).
pub open spec fn settings_cursor(m: Menus) -> nat {
    match m.settings_selected {
        Some(i) => i as nat,
        None => 0,
    }
}

/// What a key does in the settings menu (others do nothing): Esc and `q`
/// close it; `k`/`j` and the arrows move round the entries; Enter, Right
/// and `l` choose the selected entry.
pub open spec fn settings_key(a: App, b: App, e: Seq<Effect>, code: Key) -> bool {
    match code {
        Key::Esc | Key::Char('q') => b == App { state: a.previous_app_state, ..a } && e.len() == 0,
        Key::Up | Key::Char('k') => e.len() == 0 && b == App {
            menus: Menus {
                settings_selected: Some(
                    (if settings_cursor(a.menus) > 0 { settings_cursor(a.menus) - 1 } else { 9 }) as usize,
                ),
                ..a.menus
            },
            ..a
        },
        Key::Down | Key::Char('j') => e.len() == 0 && b == App {
            menus: Menus { settings_selected: Some(((settings_cursor(a.menus) + 1) % 10) as usize), ..a.menus },
            ..a
        },
        Key::Enter | Key::Right | Key::Char('l') => match a.menus.settings_selected {
            Some(i) => if i < 10 {
                setting_chosen(a, b, e, setting_order()[i as int])
            } else {
                b == a && e.len() == 0
            },
            None => b == a && e.len() == 0,
        },
        _ => b == a && e.len() == 0,
    }
}

impl App {
    /// Starts editing a settings value.
    fn start_edit(&mut self, item: SettingItem, text: String, msg: &str)
        ensures
            edit_started(*old(self), *final(self), Seq::empty(), item, text@, msg@),
    {
        self.input_mode = InputMode::Editing;
        self.menus.settings_editing_item = Some(item);
        self.menus.settings_input = LineBuffer::from_text(text.as_str());
        self.status_message = message_of(msg);
    }

    /// Chooses a settings entry (see `setting_chosen`).
    pub fn choose_setting(&mut self, item: SettingItem) -> (effects: Vec<Effect>)
        ensures
            setting_chosen(*old(self), *final(self), effects@, item),
    {
        match item {
            SettingItem::Theme => self.change_theme(),
            SettingItem::Animation => self.toggle_animation(),
            SettingItem::ShowLive => self.toggle_live(),
            SettingItem::ShowPlaylists => self.toggle_playlists(),
            SettingItem::SearchLimit => {
                let mut t = String::new();
                push_decimal(&mut t, self.prefs.search_limit as u64);
                assert(t@ =~= decimal(self.prefs.search_limit as nat));
                self.start_edit(item, t, "Enter new Search Limit: ");
                Vec::new()
            },
            SettingItem::PlaylistLimit => {
                let mut t = String::new();
                push_decimal(&mut t, self.prefs.playlist_limit as u64);
                assert(t@ =~= decimal(self.prefs.playlist_limit as nat));
                self.start_edit(item, t, "Enter new Playlist Limit: ");
                Vec::new()
            },
            SettingItem::DownloadDirectory => {
                let t = self.prefs.download_directory.clone();
                self.start_edit(item, t, "Enter new Download Directory: ");
                Vec::new()
            },
            SettingItem::EnableLogging => {
                self.prefs.settings.enable_logging = !self.prefs.settings.enable_logging;
                let e = vec![Effect::ReportLogPath, Effect::SaveConfig];
                assert(e@ =~= seq![Effect::ReportLogPath, Effect::SaveConfig]);
                e
            },
            SettingItem::UseCustomPaths => {
                self.prefs.settings.use_custom_paths = !self.prefs.settings.use_custom_paths;
                self.status_message = message_of("Toggled. Change binary paths in config.toml if needed.");
                let e = vec![Effect::SaveConfig];
                assert(e@ =~= seq![Effect::SaveConfig]);
                e
            },
            SettingItem::CookieMode => {
                let off = match self.prefs.settings.cookie_mode {
                    CookieMode::Off => true,
                    _ => false,
                };
                if off {
                    self.prefs.settings.cookie_mode = CookieMode::Unsetted;
                    self.status_message = message_of("Enabled. Configure cookie source in config.toml.");
                } else {
                    self.prefs.settings.cookie_mode = CookieMode::Off;
                    self.status_message = message_of("Disabled.");
                }
                let e = vec![Effect::SaveConfig];
                assert(e@ =~= seq![Effect::SaveConfig]);
                e
            },
        }
    }

    /// Handles a key in the settings menu (see `settings_key`).
    pub fn settings_key(&mut self, code: Key) -> (effects: Vec<Effect>)
        ensures
            settings_key(*old(self), *final(self), effects@, code),
    {
        match code {
            Key::Esc | Key::Char('q') => {
                self.state = self.previous_app_state;
                Vec::new()
            },
            Key::Up | Key::Char('k') => {
                let cur: usize = match self.menus.settings_selected {
                    Some(i) => i,
                    None => 0,
                };
                self.menus.settings_selected = Some(if cur > 0 { cur - 1 } else { 9 });
                Vec::new()
            },
            Key::Down | Key::Char('j') => {
                let cur: usize = match self.menus.settings_selected {
                    Some(i) => i,
                    None => 0,
                };
                self.menus.settings_selected = Some((cur % 10 + 1) % 10);
                Vec::new()
            },
            Key::Enter | Key::Right | Key::Char('l') => {
                match self.menus.settings_selected {
                    Some(i) => {
                        if i < 10 {
                            let items = SettingItem::all();
                            let item = items[i];
                            self.choose_setting(item)
                        } else {
                            Vec::new()
                        }
                    },
                    None => Vec::new(),
                }
            },
            _ => Vec::new(),
        }
    }

    /// Reports where logging writes, after logging was switched.
    pub fn log_path_reported(&mut self, path: Option<String>)
        ensures
            *final(self) == (App { status_message: final(self).status_message, ..*old(self) }),
            text_is(
                final(self).status_message,
                "Logging "@ + (if old(self).prefs.settings.enable_logging { "Enabled"@ } else { "Disabled"@ })
                    + ". Path: "@ + match path {
                    Some(p) => p@,
                    None => "Unknown"@,
                },
            ),
    {
        let mut m = String::from_str("Logging ");
        if self.prefs.settings.enable_logging {
            m.append("Enabled");
        } else {
            m.append("Disabled");
        }
        m.append(". Path: ");
        match &path {
            Some(p) => m.append(p.as_str()),
            None => m.append("Unknown"),
        }
        self.status_message = Some(m);
    }
}

/// Whether typing goes to the settings line (a settings value is being
/// edited) rather than to the search bar.
pub open spec fn settings_typing(a: App) -> bool {
    a.state == AppState::Settings && a.menus.settings_editing_item is Some
}

/// The line being typed changed by `op`.
pub open spec fn line_edited(a: App, b: App, op: EditOp) -> bool {
    if settings_typing(a) {
        b == App { menus: Menus { settings_input: b.menus.settings_input, ..a.menus }, ..a }
            && b.menus.settings_input@ == edited(op, a.menus.settings_input@)
    } else {
        b == App { search: b.search, ..a } && b.search@ == edited(op, a.search@)
    }
}

/// The settings value typed, taken: a limit that reads as a number is set
/// (and saved, and said); the download directory is set (and saved, and
/// said); anything else is dropped. Then the line is cleared and typing ends.
pub open spec fn value_committed(a: App, b: App, e: Seq<Effect>) -> bool {
    let val = a.menus.settings_input@.0;
    let after = |p: Prefs, ef: Seq<Effect>| {
        &&& b == App {
            input_mode: InputMode::Normal,
            menus: Menus { settings_input: b.menus.settings_input, settings_editing_item: None, ..a.menus },
            prefs: p,
            status_message: b.status_message,
            ..a
        }
        &&& b.menus.settings_input@ == (Seq::<char>::empty(), 0nat)
        &&& e == ef
    };
    match a.menus.settings_editing_item {
        Some(SettingItem::SearchLimit) => match parse_u32_text(val) {
            Some(n) => after(Prefs { search_limit: n, ..a.prefs }, seq![Effect::SaveConfig])
                && text_is(b.status_message, "Search Limit set to "@ + decimal(n as nat)),
            None => after(a.prefs, Seq::empty()) && b.status_message == a.status_message,
        },
        Some(SettingItem::PlaylistLimit) => match parse_u32_text(val) {
            Some(n) => after(Prefs { playlist_limit: n, ..a.prefs }, seq![Effect::SaveConfig])
                && text_is(b.status_message, "Playlist Limit set to "@ + decimal(n as nat)),
            None => after(a.prefs, Seq::empty()) && b.status_message == a.status_message,
        },
        Some(SettingItem::DownloadDirectory) => after(
            Prefs { download_directory: b.prefs.download_directory, ..a.prefs },
            seq![Effect::SaveConfig],
        ) && b.prefs.download_directory@ == val && text_is(b.status_message, "Download Directory set to "@ + val),
        _ => after(a.prefs, Seq::empty()) && b.status_message == a.status_message,
    }
}

/// What a key does while a line is typed (others do nothing): Enter takes
/// a settings value or runs the search; characters are typed, and with
/// Ctrl `u`, `k`, `w`/`h`, `a`, `e` cut to the start, cut to the end, cut
/// the word before the cursor, and go to the start or the end; Backspace
/// (with Ctrl: the word), Delete, Left and Right (with Ctrl: by words),
/// Home and End edit and move; Esc and Tab stop typing (in the settings
/// menu dropping the value typed).
pub open spec fn editing_key(a: App, b: App, e: Seq<Effect>, key: Key, ctrl: bool) -> bool {
    match key {
        Key::Enter => if settings_typing(a) {
            value_committed(a, b, e)
        } else {
            searched(a, b, e)
        },
        Key::Char(c) => e.len() == 0 && if ctrl {
            if c == 'u' {
                line_edited(a, b, EditOp::KillToStart)
            } else if c == 'k' {
                line_edited(a, b, EditOp::KillToEnd)
            } else if c == 'w' || c == 'h' {
                line_edited(a, b, EditOp::DeleteWord)
            } else if c == 'a' {
                line_edited(a, b, EditOp::Home)
            } else if c == 'e' {
                line_edited(a, b, EditOp::End)
            } else {
                b == a
            }
        } else {
            line_edited(a, b, EditOp::Insert(c))
        },
        Key::Backspace => e.len() == 0 && line_edited(a, b, if ctrl { EditOp::DeleteWord } else { EditOp::Backspace }),
        Key::Delete => e.len() == 0 && line_edited(a, b, EditOp::Delete),
        Key::Left => e.len() == 0 && line_edited(a, b, if ctrl { EditOp::WordLeft } else { EditOp::Left }),
        Key::Right => e.len() == 0 && line_edited(a, b, if ctrl { EditOp::WordRight } else { EditOp::Right }),
        Key::Home => e.len() == 0 && line_edited(a, b, EditOp::Home),
        Key::End => e.len() == 0 && line_edited(a, b, EditOp::End),
        Key::Esc | Key::Tab => e.len() == 0 && if a.state == AppState::Settings {
            &&& b == App {
                input_mode: InputMode::Normal,
                menus: Menus { settings_input: b.menus.settings_input, settings_editing_item: None, ..a.menus },
                ..a
            }
            &&& b.menus.settings_input@ == (Seq::<char>::empty(), 0nat)
        } else {
            b == App { input_mode: InputMode::Normal, ..a }
        },
        _ => b == a && e.len() == 0,
    }
}

impl App {
    /// Applies `op` to the line being typed (see `line_edited`).
    fn edit_line(&mut self, op: EditOp)
        ensures
            line_edited(*old(self), *final(self), op),
    {
        if self.state == AppState::Settings && self.menus.settings_editing_item.is_some() {
            self.menus.settings_input.apply(op);
        } else {
            self.search.apply(op);
        }
    }

    /// Takes the settings value typed (see `value_committed`).
    fn commit_value(&mut self) -> (effects: Vec<Effect>)
        requires
            settings_typing(*old(self)),
        ensures
            value_committed(*old(self), *final(self), effects@),
    {
        let val = self.menus.settings_input.text();
        let mut effects: Vec<Effect> = Vec::new();
        match self.menus.settings_editing_item {
            Some(SettingItem::SearchLimit) => {
                if let Some(n) = parse_u32(val.as_str()) {
                    self.prefs.search_limit = n;
                    let mut m = String::from_str("Search Limit set to ");
                    push_decimal(&mut m, n as u64);
                    self.status_message = Some(m);
                    effects.push(Effect::SaveConfig);
                }
            },
            Some(SettingItem::PlaylistLimit) => {
                if let Some(n) = parse_u32(val.as_str()) {
                    self.prefs.playlist_limit = n;
                    let mut m = String::from_str("Playlist Limit set to ");
                    push_decimal(&mut m, n as u64);
                    self.status_message = Some(m);
                    effects.push(Effect::SaveConfig);
                }
            },
            Some(SettingItem::DownloadDirectory) => {
                self.status_message = message("Download Directory set to ", val.as_str());
                self.prefs.download_directory = val;
                effects.push(Effect::SaveConfig);
            },
            _ => {},
        }
        self.menus.settings_input = LineBuffer::new();
        self.menus.settings_editing_item = None;
        self.input_mode = InputMode::Normal;
        proof {
            if effects@.len() == 1 {
                assert(effects@ =~= seq![Effect::SaveConfig]);
            } else {
                assert(effects@ =~= Seq::<Effect>::empty());
            }
        }
        effects
    }

    /// Handles a key while a line is typed (see `editing_key`).
    pub fn editing_key(&mut self, key: Key, ctrl: bool) -> (effects: Vec<Effect>)
        ensures
            editing_key(*old(self), *final(self), effects@, key, ctrl),
    {
        match key {
            Key::Enter => {
                if self.state == AppState::Settings && self.menus.settings_editing_item.is_some() {
                    self.commit_value()
                } else {
                    self.perform_search()
                }
            },
            Key::Char(c) => {
                if ctrl {
                    if c == 'u' {
                        self.edit_line(EditOp::KillToStart);
                    } else if c == 'k' {
                        self.edit_line(EditOp::KillToEnd);
                    } else if c == 'w' || c == 'h' {
                        self.edit_line(EditOp::DeleteWord);
                    } else if c == 'a' {
                        self.edit_line(EditOp::Home);
                    } else if c == 'e' {
                        self.edit_line(EditOp::End);
                    }
                } else {
                    self.edit_line(EditOp::Insert(c));
                }
                Vec::new()
            },
            Key::Backspace => {
                self.edit_line(if ctrl { EditOp::DeleteWord } else { EditOp::Backspace });
                Vec::new()
            },
            Key::Delete => {
                self.edit_line(EditOp::Delete);
                Vec::new()
            },
            Key::Left => {
                self.edit_line(if ctrl { EditOp::WordLeft } else { EditOp::Left });
                Vec::new()
            },
            Key::Right => {
                self.edit_line(if ctrl { EditOp::WordRight } else { EditOp::Right });
                Vec::new()
            },
            Key::Home => {
                self.edit_line(EditOp::Home);
                Vec::new()
            },
            Key::End => {
                self.edit_line(EditOp::End);
                Vec::new()
            },
            Key::Esc | Key::Tab => {
                if self.state == AppState::Settings {
                    self.menus.settings_input = LineBuffer::new();
                    self.menus.settings_editing_item = None;
                }
                self.input_mode = InputMode::Normal;
                Vec::new()
            },
            _ => Vec::new(),
        }
    }
}

} // verus!
