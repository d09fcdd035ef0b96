//! Keys and mouse events: which handler gets them.
use vstd::prelude::*;
use crate::state::{InputMode, AppState, Key, Rect, AfterScan, Effect, DownloadDialogMode, in_rect, is_in_rect};
use crate::app::{App, Playback, Results, Menus, theme_changed, next_animation_chosen, refiltered, on_off, Prefs, pause_toggled, more_loaded, selection_moved, downloads_clicked};
use crate::keys::{results_key, downloads_key, nav_up, nav_down};
use crate::menus::{format_key, dialog_key, dialog_items};
use crate::editing::{settings_key, editing_key};
use crate::choices::menu_key;
use crate::actions::{available_actions, entries};

verus! {

/// The first character of the lower case of `c` (`char::to_lowercase`).
pub uninterp spec fn lowercase_first_of(c: char) -> char;

/// The first character of `c.to_lowercase()` (std), `c` itself should it
/// have none. As std documents, an ASCII capital lowers to the letter 32
/// code points on, and every other ASCII character lowers to itself; of
/// other characters only that the result is `lowercase_first_of(c)` is
/// said.
#[verifier::external_body]
fn lower_first(c: char) -> (r: char)
    ensures
        r == lowercase_first_of(c),
        'A' <= c <= 'Z' ==> r as u32 == c as u32 + 32,
        (c as u32) < 128 && !('A' <= c <= 'Z') ==> r == c,
{
    c.to_lowercase().next().unwrap_or(c)
}

/// A character lowered: an ASCII capital becomes its small letter, other
/// ASCII characters stay, and others lower as `char::to_lowercase` does.
pub open spec fn key_lower(c: char) -> char {
    if 'A' <= c <= 'Z' {
        ((c as u32) + 32) as char
    } else if (c as u32) < 128 {
        c
    } else {
        lowercase_first_of(c)
    }
}

/// The key as the screens see it: outside typing, characters are lowered.
pub open spec fn screen_key(mode: InputMode, key: Key) -> Key {
    match mode {
        InputMode::Editing => key,
        _ => match key {
            Key::Char(c) => Key::Char(key_lower(c)),
            _ => key,
        },
    }
}

/// What the settings shortcut (Ctrl+S) does: closes the settings menu, or
/// opens it at its first entry.
pub open spec fn settings_toggled(a: App, b: App) -> bool {
    if a.state == AppState::Settings {
        b == App { state: a.previous_app_state, ..a }
    } else {
        b == App {
            previous_app_state: a.state,
            state: AppState::Settings,
            menus: Menus { settings_selected: Some(0), ..a.menus },
            ..a
        }
    }
}

/// What a key does. Outside typing, keys are lowered, and Ctrl with `t`,
/// `a`, `l`, `p` and `s` switches the theme, the animation, the live and
/// playlist filters and the settings menu; other keys go to the screen that
/// has the keyboard (the results for the search screen). While typing, keys
/// edit the line. While waiting, Esc and `x` stop waiting.
pub open spec fn key_event(a: App, b: App, e: Seq<Effect>, key: Key, ctrl: bool) -> bool {
    let code = screen_key(a.input_mode, key);
    match a.input_mode {
        InputMode::Normal => if ctrl && code == Key::Char('t') {
            theme_changed(a, b, e)
        } else if ctrl && code == Key::Char('a') {
            next_animation_chosen(a, b, e)
        } else if ctrl && code == Key::Char('l') {
            refiltered(a, b, e, Prefs { show_live: !a.prefs.show_live, ..a.prefs }, "Show Live: "@ + on_off(!a.prefs.show_live))
        } else if ctrl && code == Key::Char('p') {
            refiltered(
                a,
                b,
                e,
                Prefs { show_playlists: !a.prefs.show_playlists, ..a.prefs },
                "Show Playlists: "@ + on_off(!a.prefs.show_playlists),
            )
        } else if ctrl && code == Key::Char('s') {
            settings_toggled(a, b) && e.len() == 0
        } else {
            match a.state {
                AppState::Settings => settings_key(a, b, e, code),
                AppState::FormatSelection => format_key(a, b, e, code),
                AppState::Downloads => downloads_key(a, b, e, code),
                AppState::DownloadDialog => dialog_key(a, b, e, code),
                AppState::ActionMenu => menu_key(a, b, e, code),
                _ => results_key(a, b, e, code),
            }
        },
        InputMode::Editing => editing_key(a, b, e, key, ctrl),
        InputMode::Loading => e.len() == 0 && if code == Key::Esc || code == Key::Char('x') {
            b == App {
                playback: Playback { terminal_loading: false, terminal_loading_error: None, ..a.playback },
                input_mode: InputMode::Normal,
                ..a
            }
        } else {
            b == a
        },
    }
}

impl App {
    /// Handles a key, with Ctrl held or not (see `key_event`).
    pub fn handle_key_event(&mut self, key: Key, ctrl: bool) -> (effects: Vec<Effect>)
        ensures
            key_event(*old(self), *final(self), effects@, key, ctrl),
    {
        let code = match self.input_mode {
            InputMode::Editing => key,
            _ => match key {
                Key::Char(c) => Key::Char(lower_first(c)),
                _ => key,
            },
        };
        match self.input_mode {
            InputMode::Normal => {
                if ctrl && code == Key::Char('t') {
                    return self.change_theme();
                }
                if ctrl && code == Key::Char('a') {
                    return self.toggle_animation();
                }
                if ctrl && code == Key::Char('l') {
                    return self.toggle_live();
                }
                if ctrl && code == Key::Char('p') {
                    return self.toggle_playlists();
                }
                if ctrl && code == Key::Char('s') {
                    self.toggle_settings();
                    return Vec::new();
                }
                match self.state {
                    AppState::Settings => self.settings_key(code),
                    AppState::FormatSelection => self.handle_format_selection_key(code),
                    AppState::Downloads => self.downloads_key(code),
                    AppState::DownloadDialog => self.handle_download_dialog_key(code),
                    AppState::ActionMenu => self.handle_action_menu_key(code),
                    _ => self.results_key(code),
                }
            },
            InputMode::Editing => self.editing_key(key, ctrl),
            InputMode::Loading => {
                if code == Key::Esc || code == Key::Char('x') {
                    self.playback.terminal_loading = false;
                    self.playback.terminal_loading_error = None;
                    self.input_mode = InputMode::Normal;
                }
                Vec::new()
            },
        }
    }
}


/// What the mouse did.
#[derive(Clone, Copy, Debug, PartialEq, Eq, Structural)]
pub enum MouseInput {
    /// The left button went down on the cell `(x, y)` at `now` nanoseconds.
    LeftDown { x: u16, y: u16, now: u64 },
    ScrollUp,
    ScrollDown,
    Other,
}

/// Half a second, in nanoseconds: two clicks on the same cell within it
/// make a double click.
pub open spec fn double_click_window() -> u64 {
    500_000_000
}

/// Whether a click at `(x, y)` at time `now` completes a double click, and
/// the click remembered after it: a double click is the second of two
/// clicks on the same cell less than half a second apart, and is then
/// forgotten; any other click is remembered.
pub open spec fn click_seen(last: Option<(u64, u16, u16)>, x: u16, y: u16, now: u64) -> (bool, Option<(u64, u16, u16)>) {
    match last {
        Some((t, lx, ly)) => if (if now >= t { now - t } else { 0 }) < double_click_window() && lx == x && ly == y {
            (true, None)
        } else {
            (false, Some((now, x, y)))
        },
        None => (false, Some((now, x, y))),
    }
}

/// `a - b`, or 0 when `b` is larger.
pub open spec fn minus(a: int, b: int) -> int {
    if a >= b {
        a - b
    } else {
        0
    }
}

/// A click on the action menu: on an entry it acts as that entry's key;
/// outside the menu it closes it.
pub open spec fn menu_clicked(a: App, b: App, e: Seq<Effect>, x: u16, y: u16) -> bool {
    match a.layout.action_menu {
        Some(area) => if in_rect(x, y, area) {
            let idx = a.layout.action_menu_offset + minus(minus(y as int, area.y as int), 1);
            let list = available_actions(a);
            if idx < list.len() {
                key_event(a, b, e, list[idx].0, false)
            } else {
                b == a && e.len() == 0
            }
        } else {
            b == App { state: a.previous_app_state, ..a } && e.len() == 0
        },
        None => b == a && e.len() == 0,
    }
}

/// A click on the format picker: on a format it selects it, and a double
/// click takes it; outside the picker it goes back to the action menu.
pub open spec fn picker_clicked(a: App, b: App, e: Seq<Effect>, x: u16, y: u16, double_click: bool) -> bool {
    match a.layout.format_selection {
        Some(area) => if in_rect(x, y, area) {
            let start = area.y + 3;
            let idx = a.layout.format_selection_offset + (y - start);
            if y >= start && idx < a.menus.formats@.len() {
                let mid = App { menus: Menus { selected_format: Some(idx as usize), ..a.menus }, ..a };
                if double_click {
                    key_event(mid, b, e, Key::Enter, false)
                } else {
                    b == mid && e.len() == 0
                }
            } else {
                b == a && e.len() == 0
            }
        } else {
            b == App { state: AppState::ActionMenu, ..a } && e.len() == 0
        },
        None => b == a && e.len() == 0,
    }
}

/// A click on the download dialog: on an entry it selects it, and a double
/// click takes it; outside the dialog it goes back to the action menu.
pub open spec fn dialog_clicked(a: App, b: App, e: Seq<Effect>, x: u16, y: u16, double_click: bool) -> bool {
    match a.layout.download_dialog {
        Some(area) => if in_rect(x, y, area) {
            let start = area.y + 3;
            let rel = y - start;
            if y >= start && rel < dialog_items(a.menus.dialog_mode) {
                let mid = App { menus: Menus { dialog_index: rel as usize, ..a.menus }, ..a };
                if double_click {
                    key_event(mid, b, e, Key::Enter, false)
                } else {
                    b == mid && e.len() == 0
                }
            } else {
                b == a && e.len() == 0
            }
        } else {
            b == App { state: AppState::ActionMenu, ..a } && e.len() == 0
        },
        None => b == a && e.len() == 0,
    }
}

/// A click on the settings menu: on an entry it selects it, and a double
/// click chooses it; outside the menu it closes it.
pub open spec fn settings_clicked(a: App, b: App, e: Seq<Effect>, x: u16, y: u16, double_click: bool) -> bool {
    match a.layout.settings {
        Some(area) => if in_rect(x, y, area) {
            let idx = a.layout.settings_offset + minus(minus(y as int, area.y as int), 1);
            if idx < 10 {
                let mid = App { menus: Menus { settings_selected: Some(idx as usize), ..a.menus }, ..a };
                if double_click {
                    key_event(mid, b, e, Key::Enter, false)
                } else {
                    b == mid && e.len() == 0
                }
            } else {
                b == a && e.len() == 0
            }
        } else {
            b == App { state: a.previous_app_state, ..a } && e.len() == 0
        },
        None => b == a && e.len() == 0,
    }
}

/// A click on the results list (two rows per result): a result is
/// selected, and a double click opens the action menu; the row after the
/// results loads more (after search words, or in a playlist). A click there
/// also leaves the downloads panel.
pub open spec fn list_clicked(a: App, b: App, e: Seq<Effect>, y: u16, double_click: bool) -> bool {
    let a1 = if a.state == AppState::Downloads { App { state: AppState::Results, ..a } } else { a };
    let area = a.layout.main_content;
    let start = area.y + 1;
    let idx = a.layout.main_list_offset + (y - start) / 2;
    let n = a.results.items@.len();
    if y >= start && idx < n {
        let sel = App { results: Results { selected: Some(idx as usize), ..a1.results }, ..a1 };
        e.len() == 0 && b == if double_click {
            App { previous_app_state: sel.state, state: AppState::ActionMenu, ..sel }
        } else {
            sel
        }
    } else if y >= start && idx == n && (!a.results.is_url_mode || a.results.is_playlist_mode) {
        more_loaded(a1, b, e)
    } else {
        b == a1 && e.len() == 0
    }
}

/// What a press of the left button at `(x, y)` does once the click is
/// counted (`double_click` tells whether it completed a double click): an
/// open menu or dialog takes it; else the playback bar pauses, the search
/// bar starts typing, the downloads panel (rescanned first when it did not
/// have the keyboard) and the results list select what is under it.
pub open spec fn clicked(a: App, b: App, e: Seq<Effect>, x: u16, y: u16, double_click: bool) -> bool {
    match a.state {
        AppState::ActionMenu => menu_clicked(a, b, e, x, y),
        AppState::FormatSelection => picker_clicked(a, b, e, x, y, double_click),
        AppState::DownloadDialog => dialog_clicked(a, b, e, x, y, double_click),
        AppState::Settings => settings_clicked(a, b, e, x, y, double_click),
        _ => if a.layout.playback_bar is Some && in_rect(x, y, a.layout.playback_bar.unwrap()) {
            pause_toggled(a, b, e)
        } else if in_rect(x, y, a.layout.search_bar) {
            b == App { input_mode: InputMode::Editing, ..a } && e.len() == 0
        } else if a.downloads.show_panel && a.layout.downloads is Some && in_rect(x, y, a.layout.downloads.unwrap()) {
            if a.state != AppState::Downloads {
                b == App { previous_app_state: a.state, state: AppState::Downloads, ..a } && e == seq![
                    Effect::RefreshLocalFiles(AfterScan::DownloadsClick { y, double_click }),
                ]
            } else {
                downloads_clicked(a, b, a.layout.downloads.unwrap(), y, double_click) && e.len() == 0
            }
        } else if in_rect(x, y, a.layout.main_content) {
            list_clicked(a, b, e, y, double_click)
        } else {
            b == a && e.len() == 0
        },
    }
}

/// What scrolling does: it moves the selection of the results, the
/// downloads panel or the format picker by one row.
pub open spec fn scrolled(a: App, b: App, e: Seq<Effect>, down: bool) -> bool {
    match a.state {
        AppState::Results => selection_moved(a, b, e, if down { 1 } else { -1 }),
        AppState::Downloads => e.len() == 0 && b == App {
            downloads: if down { nav_down(a.downloads) } else { nav_up(a.downloads) },
            ..a
        },
        AppState::FormatSelection => format_key(a, b, e, if down { Key::Down } else { Key::Up }),
        _ => b == a && e.len() == 0,
    }
}

/// What a mouse event does: a press of the left button is counted towards
/// a double click and then handled (see `clicked`); scrolling moves the
/// selection (see `scrolled`).
pub open spec fn mouse_event(a: App, b: App, e: Seq<Effect>, m: MouseInput) -> bool {
    match m {
        MouseInput::LeftDown { x, y, now } => {
            let (double_click, last) = click_seen(a.last_click, x, y, now);
            clicked(App { last_click: last, ..a }, b, e, x, y, double_click)
        },
        MouseInput::ScrollUp => scrolled(a, b, e, false),
        MouseInput::ScrollDown => scrolled(a, b, e, true),
        MouseInput::Other => b == a && e.len() == 0,
    }
}

impl App {
    /// Counts a click towards a double click (see `click_seen`).
    pub fn is_double_click(&mut self, x: u16, y: u16, now: u64) -> (double_click: bool)
        ensures
            (double_click, final(self).last_click) == click_seen(old(self).last_click, x, y, now),
            *final(self) == (App { last_click: final(self).last_click, ..*old(self) }),
    {
        if let Some((t, lx, ly)) = self.last_click {
            let elapsed = if now >= t {
                now - t
            } else {
                0
            };
            if elapsed < 500_000_000 && lx == x && ly == y {
                self.last_click = None;
                return true;
            }
        }
        self.last_click = Some((now, x, y));
        false
    }

    /// A click on the action menu (see `menu_clicked`).
    pub fn handle_action_menu_mouse(&mut self, x: u16, y: u16) -> (effects: Vec<Effect>)
        ensures
            menu_clicked(*old(self), *final(self), effects@, x, y),
    {
        if let Some(area) = self.layout.action_menu {
            if is_in_rect(x, y, area) {
                let rel: usize = (y.saturating_sub(area.y)).saturating_sub(1) as usize;
                let actions = self.get_available_actions();
                if self.layout.action_menu_offset < actions.len() && rel < actions.len() - self.layout.action_menu_offset {
                    let idx = self.layout.action_menu_offset + rel;
                    let code = actions[idx].key;
                    assert(entries(actions@)[idx as int].0 == code);
                    return self.handle_key_event(code, false);
                }
                return Vec::new();
            } else {
                self.state = self.previous_app_state;
            }
        }
        Vec::new()
    }

    /// A click on the format picker (see `picker_clicked`).
    pub fn handle_format_selection_mouse(&mut self, x: u16, y: u16, double_click: bool) -> (effects: Vec<Effect>)
        ensures
            picker_clicked(*old(self), *final(self), effects@, x, y, double_click),
    {
        if let Some(area) = self.layout.format_selection {
            if is_in_rect(x, y, area) {
                let start: u32 = area.y as u32 + 3;
                if (y as u32) >= start {
                    let rel = ((y as u32) - start) as usize;
                    let n = self.menus.formats.len();
                    if self.layout.format_selection_offset < n && rel < n - self.layout.format_selection_offset {
                        self.menus.selected_format = Some(self.layout.format_selection_offset + rel);
                        if double_click {
                            return self.handle_key_event(Key::Enter, false);
                        }
                    }
                }
            } else {
                self.state = AppState::ActionMenu;
            }
        }
        Vec::new()
    }

    /// A click on the download dialog (see `dialog_clicked`).
    pub fn handle_download_dialog_mouse(&mut self, x: u16, y: u16, double_click: bool) -> (effects: Vec<Effect>)
        ensures
            dialog_clicked(*old(self), *final(self), effects@, x, y, double_click),
    {
        if let Some(area) = self.layout.download_dialog {
            if is_in_rect(x, y, area) {
                let items: u32 = match self.menus.dialog_mode {
                    DownloadDialogMode::Single => 3,
                    _ => 2,
                };
                let start: u32 = area.y as u32 + 3;
                if (y as u32) >= start {
                    let rel = (y as u32) - start;
                    if rel < items {
                        self.menus.dialog_index = rel as usize;
                        if double_click {
                            return self.handle_key_event(Key::Enter, false);
                        }
                    }
                }
            } else {
                self.state = AppState::ActionMenu;
            }
        }
        Vec::new()
    }

    /// A click on the settings menu (see `settings_clicked`).
    pub fn handle_settings_mouse(&mut self, x: u16, y: u16, double_click: bool) -> (effects: Vec<Effect>)
        ensures
            settings_clicked(*old(self), *final(self), effects@, x, y, double_click),
    {
        if let Some(area) = self.layout.settings {
            if is_in_rect(x, y, area) {
                let rel: usize = (y.saturating_sub(area.y)).saturating_sub(1) as usize;
                if self.layout.settings_offset < 10 && rel < 10 - self.layout.settings_offset {
                    self.menus.settings_selected = Some(self.layout.settings_offset + rel);
                    if double_click {
                        return self.handle_key_event(Key::Enter, false);
                    }
                }
            } else {
                self.state = self.previous_app_state;
            }
        }
        Vec::new()
    }

    /// A click on the results list (see `list_clicked`).
    fn list_click(&mut self, y: u16, double_click: bool) -> (effects: Vec<Effect>)
        ensures
            list_clicked(*old(self), *final(self), effects@, y, double_click),
    {
        if self.state == AppState::Downloads {
            self.state = AppState::Results;
        }
        let start: u32 = self.layout.main_content.y as u32 + 1;
        if (y as u32) >= start {
            let rel = (((y as u32) - start) / 2) as usize;
            let n = self.results.items.len();
            let off = self.layout.main_list_offset;
            if off <= n && rel < n - off {
                self.results.selected = Some(off + rel);
                if double_click {
                    self.previous_app_state = self.state;
                    self.state = AppState::ActionMenu;
                }
            } else if off <= n && rel == n - off && (!self.results.is_url_mode || self.results.is_playlist_mode) {
                return self.load_more();
            }
        }
        Vec::new()
    }

    /// Handles a press of the left button at `(x, y)` (see `clicked`).
    fn click(&mut self, x: u16, y: u16, double_click: bool) -> (effects: Vec<Effect>)
        ensures
            clicked(*old(self), *final(self), effects@, x, y, double_click),
    {
        match self.state {
            AppState::ActionMenu => return self.handle_action_menu_mouse(x, y),
            AppState::FormatSelection => return self.handle_format_selection_mouse(x, y, double_click),
            AppState::DownloadDialog => return self.handle_download_dialog_mouse(x, y, double_click),
            AppState::Settings => return self.handle_settings_mouse(x, y, double_click),
            _ => {},
        }
        if let Some(area) = self.layout.playback_bar {
            if is_in_rect(x, y, area) {
                return self.toggle_pause();
            }
        }
        if is_in_rect(x, y, self.layout.search_bar) {
            self.input_mode = InputMode::Editing;
            return Vec::new();
        }
        if self.downloads.show_panel {
            if let Some(area) = self.layout.downloads {
                if is_in_rect(x, y, area) {
                    if self.state != AppState::Downloads {
                        self.previous_app_state = self.state;
                        self.state = AppState::Downloads;
                        let e = vec![Effect::RefreshLocalFiles(AfterScan::DownloadsClick { y, double_click })];
                        assert(e@ =~= seq![Effect::RefreshLocalFiles(AfterScan::DownloadsClick { y, double_click })]);
                        return e;
                    } else {
                        self.downloads_clicked_at(area, y, double_click);
                        return Vec::new();
                    }
                }
            }
        }
        if is_in_rect(x, y, self.layout.main_content) {
            return self.list_click(y, double_click);
        }
        Vec::new()
    }

    /// Handles a mouse event (see `mouse_event`).
    pub fn handle_mouse_event(&mut self, m: MouseInput) -> (effects: Vec<Effect>)
        ensures
            mouse_event(*old(self), *final(self), effects@, m),
    {
        match m {
            MouseInput::LeftDown { x, y, now } => {
                let double_click = self.is_double_click(x, y, now);
                self.click(x, y, double_click)
            },
            MouseInput::ScrollUp => self.handle_scroll(false),
            MouseInput::ScrollDown => self.handle_scroll(true),
            MouseInput::Other => Vec::new(),
        }
    }

    /// Scrolls the list that has the keyboard (see `scrolled`).
    pub fn handle_scroll(&mut self, down: bool) -> (effects: Vec<Effect>)
        ensures
            scrolled(*old(self), *final(self), effects@, down),
    {
        match self.state {
            AppState::Results => self.move_results(if down { 1 } else { -1 }),
            AppState::Downloads => {
                if down {
                    self.downloads.down();
                } else {
                    self.downloads.up();
                }
                Vec::new()
            },
            AppState::FormatSelection => self.handle_format_selection_key(if down { Key::Down } else { Key::Up }),
            _ => Vec::new(),
        }
    }
}
} // verus!
