//! What keys do on the results list and the downloads panel.
use vstd::prelude::*;
use crate::text::{opt_text, starts_with, str_starts_with};
use crate::model::{Video, VideoType, DownloadTask, DownloadStatus, copy_status};
use crate::state::{InputMode, AppState, AppAction, Key, DownloadControl, AfterScan, Effect};
use crate::app::{
    App, Results, Downloads, Playback, PlaylistLevel, text_is, message_of, stopped, stop_effects,
    stopped_playback, sought, pause_toggled, more_loaded, selection_moved,
};
use crate::player::{signed_decimal, seek_text, toggle_pause_text};
use crate::actions::selected_file;
use crate::choices::marked_deleted;

verus! {

broadcast use vstd::string::group_string_axioms;

/// `v` without the entries equal to `x`.
pub open spec fn drop_all(v: Seq<usize>, x: usize) -> Seq<usize>
    decreases v.len(),
{
    if v.len() == 0 {
        v
    } else if v.last() == x {
        drop_all(v.drop_last(), x)
    } else {
        drop_all(v.drop_last(), x).push(v.last())
    }
}

/// A selection set with `x` switched: taken out when it is in, else added.
pub open spec fn toggled(v: Seq<usize>, x: usize) -> Seq<usize> {
    if v.contains(x) {
        drop_all(v, x)
    } else {
        v.push(x)
    }
}

/// Switches `x` in the selection set `v`.
pub fn toggle_index(v: &mut Vec<usize>, x: usize)
    ensures
        final(v)@ == toggled(old(v)@, x),
{
    let mut found = false;
    let mut k: usize = 0;
    while k < v.len()
        invariant
            k <= v@.len(),
            found == (exists|j: int| 0 <= j < k && v@[j] == x),
        decreases v.len() - k,
    {
        if v[k] == x {
            found = true;
        }
        k = k + 1;
    }
    if !found {
        v.push(x);
        return;
    }
    assert(old(v)@.contains(x));
    let mut kept: Vec<usize> = Vec::new();
    let mut i: usize = 0;
    while i < v.len()
        invariant
            i <= v@.len(),
            v@ == old(v)@,
            kept@ == drop_all(v@.take(i as int), x),
        decreases v.len() - i,
    {
        assert(v@.take(i + 1).drop_last() =~= v@.take(i as int));
        if v[i] != x {
            kept.push(v[i]);
        }
        i = i + 1;
    }
    assert(v@.take(v@.len() as int) =~= v@);
    *v = kept;
}




/// The result under the selection, when it is one.
pub open spec fn selected_result(r: Results) -> Option<Video> {
    match r.selected {
        Some(i) => if i < r.items@.len() { Some(r.items@[i as int]) } else { None },
        None => None,
    }
}

/// Key `d` on the results list: closes the downloads panel, or opens it,
/// rescanning the download directory and then selecting its first entry.
pub open spec fn panel_toggled(a: App, b: App, e: Seq<Effect>) -> bool {
    if a.downloads.show_panel {
        b == App { downloads: Downloads { show_panel: false, ..a.downloads }, state: a.previous_app_state, ..a }
            && e.len() == 0
    } else {
        b == App {
            downloads: Downloads { show_panel: true, ..a.downloads },
            previous_app_state: a.state,
            state: AppState::Downloads,
            ..a
        } && e == seq![Effect::RefreshLocalFiles(AfterScan::SelectFirst)]
    }
}

/// Enter on the results list: the action menu for the selected result, or
/// more results from the `load more` row (after search words, or in a
/// playlist).
pub open spec fn results_entered(a: App, b: App, e: Seq<Effect>) -> bool {
    match a.results.selected {
        Some(i) => if i < a.results.items@.len() {
            b == App { previous_app_state: a.state, state: AppState::ActionMenu, ..a } && e.len() == 0
        } else if !a.results.is_url_mode || a.results.is_playlist_mode {
            more_loaded(a, b, e)
        } else {
            b == a && e.len() == 0
        },
        None => b == a && e.len() == 0,
    }
}

/// Backspace or `b` on the results list: leaves the open playlist, back to
/// the results and selection it replaced.
pub open spec fn playlist_left(a: App, b: App, e: Seq<Effect>) -> bool {
    &&& e.len() == 0
    &&& if a.results.playlist_stack@.len() > 0 {
        let top = a.results.playlist_stack@.last();
        &&& b == App {
            results: Results {
                items: top.children,
                selected: top.selected,
                selected_playlist_indices: b.results.selected_playlist_indices,
                playlist_stack: b.results.playlist_stack,
                is_playlist_mode: false,
                is_url_mode: starts_with(a.search@.0, "http"@),
                ..a.results
            },
            status_message: b.status_message,
            ..a
        }
        &&& b.results.playlist_stack@ == a.results.playlist_stack@.drop_last()
        &&& b.results.selected_playlist_indices@.len() == 0
        &&& text_is(b.status_message, "Returned to search results."@)
    } else {
        b == a
    }
}

/// Space on the results list: marks or unmarks the selected result.
pub open spec fn result_marked(a: App, b: App, e: Seq<Effect>) -> bool {
    &&& e.len() == 0
    &&& match a.results.selected {
        Some(i) => if i < a.results.items@.len() {
            &&& b == App {
                results: Results { selected_playlist_indices: b.results.selected_playlist_indices, ..a.results },
                ..a
            }
            &&& b.results.selected_playlist_indices@ == toggled(a.results.selected_playlist_indices@, i)
        } else {
            b == a
        },
        None => b == a,
    }
}

/// The outcome of choosing to play `url` (titled `title`) in a window:
/// the player is stopped and the playback is left for the caller to start.
pub open spec fn external_play(a: App, b: App, e: Seq<Effect>, url: Seq<char>, title: String) -> bool {
    &&& stop_effects(e)
    &&& b.pending_action matches Some((act, u, t)) && act == AppAction::WatchExternal && u@ == url && t == title
    &&& stopped(a, App { pending_action: a.pending_action, ..b })
}

/// Right on the results list: plays the selected video in a window (in
/// the best format) unless sound alone is playing or a playlist is
/// selected; otherwise seeks five seconds on.
pub open spec fn results_right(a: App, b: App, e: Seq<Effect>) -> bool {
    match selected_result(a.results) {
        Some(v) => if !a.playback.is_audio && v.video_type != VideoType::Playlist {
            external_play(a, b, e, v.url@ + "::best"@, v.title)
        } else {
            sought(a, b, e, 5)
        },
        None => sought(a, b, e, 5),
    }
}

/// What a key does on the results list (keys other than these do nothing):
/// `q` quits; Tab goes to the downloads panel when it is open; `d` opens or
/// closes the panel; `/` and `s` edit the search bar; `j`/`k` and the
/// arrows move the selection; Enter opens the action menu or loads more;
/// Backspace and `b` leave an open playlist; Space marks a result; `x`
/// stops and `p` pauses the player; Left, `[` and `]` seek; Right plays.
pub open spec fn results_key(a: App, b: App, e: Seq<Effect>, code: Key) -> bool {
    match code {
        Key::Char('q') => b == App { running: false, ..a } && e.len() == 0,
        Key::Tab => e.len() == 0 && if a.downloads.show_panel {
            b == App { state: AppState::Downloads, ..a }
        } else {
            b == a
        },
        Key::Char('d') => panel_toggled(a, b, e),
        Key::Char('/') | Key::Char('s') => b == App { input_mode: InputMode::Editing, ..a } && e.len() == 0,
        Key::Down | Key::Char('j') => selection_moved(a, b, e, 1),
        Key::Up | Key::Char('k') => selection_moved(a, b, e, -1),
        Key::Enter => results_entered(a, b, e),
        Key::Backspace | Key::Char('b') => playlist_left(a, b, e),
        Key::Char(' ') => result_marked(a, b, e),
        Key::Char('x') => stopped(a, b) && stop_effects(e),
        Key::Char('p') => pause_toggled(a, b, e),
        Key::Left => sought(a, b, e, -5),
        Key::Right => results_right(a, b, e),
        Key::Char('[') => sought(a, b, e, -30),
        Key::Char(']') => sought(a, b, e, 30),
        _ => b == a && e.len() == 0,
    }
}

impl App {
    /// Key `d` on the results list (see `panel_toggled`).
    fn toggle_panel(&mut self) -> (effects: Vec<Effect>)
        ensures
            panel_toggled(*old(self), *final(self), effects@),
    {
        if self.downloads.show_panel {
            self.downloads.show_panel = false;
            self.state = self.previous_app_state;
            Vec::new()
        } else {
            self.downloads.show_panel = true;
            self.previous_app_state = self.state;
            self.state = AppState::Downloads;
            let e = vec![Effect::RefreshLocalFiles(AfterScan::SelectFirst)];
            assert(e@ =~= seq![Effect::RefreshLocalFiles(AfterScan::SelectFirst)]);
            e
        }
    }

    /// Enter on the results list (see `results_entered`).
    fn results_enter(&mut self) -> (effects: Vec<Effect>)
        ensures
            results_entered(*old(self), *final(self), effects@),
    {
        if let Some(idx) = self.results.selected {
            if idx < self.results.items.len() {
                self.previous_app_state = self.state;
                self.state = AppState::ActionMenu;
                Vec::new()
            } else if !self.results.is_url_mode || self.results.is_playlist_mode {
                self.load_more()
            } else {
                Vec::new()
            }
        } else {
            Vec::new()
        }
    }

    /// Leaves the open playlist (see `playlist_left`).
    fn leave_playlist(&mut self) -> (effects: Vec<Effect>)
        ensures
            playlist_left(*old(self), *final(self), effects@),
    {
        if self.results.playlist_stack.len() > 0 {
            let level = self.results.playlist_stack.pop().unwrap();
            self.results.items = level.children;
            self.results.selected = level.selected;
            self.results.selected_playlist_indices = Vec::new();
            self.results.is_playlist_mode = false;
            let q = self.search.text();
            self.results.is_url_mode = str_starts_with(q.as_str(), "http");
            self.status_message = message_of("Returned to search results.");
        }
        Vec::new()
    }

    /// Marks or unmarks the selected result (see `result_marked`).
    fn mark_result(&mut self) -> (effects: Vec<Effect>)
        ensures
            result_marked(*old(self), *final(self), effects@),
    {
        if let Some(idx) = self.results.selected {
            if idx < self.results.items.len() {
                toggle_index(&mut self.results.selected_playlist_indices, idx);
            }
        }
        Vec::new()
    }

    /// Right on the results list (see `results_right`).
    fn results_right(&mut self) -> (effects: Vec<Effect>)
        ensures
            results_right(*old(self), *final(self), effects@),
    {
        if !self.playback.is_audio {
            if let Some(idx) = self.results.selected {
                if idx < self.results.items.len() {
                    if self.results.items[idx].video_type != VideoType::Playlist {
                        let mut url = self.results.items[idx].url.clone();
                        url.append("::best");
                        let title = self.results.items[idx].title.clone();
                        let effects = self.stop_playback();
                        self.pending_action = Some((AppAction::WatchExternal, url, title));
                        return effects;
                    }
                }
            }
        }
        self.seek(5)
    }

    /// Handles a key on the results list (see `results_key`).
    pub fn results_key(&mut self, code: Key) -> (effects: Vec<Effect>)
        ensures
            results_key(*old(self), *final(self), effects@, code),
    {
        match code {
            Key::Char('q') => {
                self.running = false;
                Vec::new()
            },
            Key::Tab => {
                if self.downloads.show_panel {
                    self.state = AppState::Downloads;
                }
                Vec::new()
            },
            Key::Char('d') => self.toggle_panel(),
            Key::Char('/') | Key::Char('s') => {
                self.input_mode = InputMode::Editing;
                Vec::new()
            },
            Key::Down | Key::Char('j') => self.move_results(1),
            Key::Up | Key::Char('k') => self.move_results(-1),
            Key::Enter => self.results_enter(),
            Key::Backspace | Key::Char('b') => self.leave_playlist(),
            Key::Char(' ') => self.mark_result(),
            Key::Char('x') => self.stop_playback(),
            Key::Char('p') => self.toggle_pause(),
            Key::Left => self.seek(-5),
            Key::Right => self.results_right(),
            Key::Char('[') => self.seek(-30),
            Key::Char(']') => self.seek(30),
            _ => Vec::new(),
        }
    }
}


/// The downloads panel after moving up: within the local files, from the
/// first file to the last download, within the downloads; with nothing
/// selected, the first file (else the first download).
pub open spec fn nav_up(d: Downloads) -> Downloads {
    let n = d.manager@.1.len();
    match d.selected_local {
        Some(i) => if i > 0 {
            Downloads { selected_local: Some((i - 1) as usize), ..d }
        } else if n > 0 {
            Downloads { selected_local: None, selected: Some((n - 1) as usize), ..d }
        } else {
            d
        },
        None => match d.selected {
            Some(i) => if i > 0 { Downloads { selected: Some((i - 1) as usize), ..d } } else { d },
            None => if d.local_files@.len() > 0 {
                Downloads { selected_local: Some(0), ..d }
            } else if n > 0 {
                Downloads { selected: Some(0), ..d }
            } else {
                d
            },
        },
    }
}

/// The last position of a list of `n` entries: `n - 1` in wrapping `usize`
/// arithmetic, which is the largest `usize` for an empty list.
pub open spec fn last_position(n: nat) -> int {
    if n == 0 {
        usize::MAX as int
    } else {
        n - 1
    }
}

/// The downloads panel after moving down: within the downloads, from the
/// last download to the first file, within the files; with nothing
/// selected, the first download (else the first file).
pub open spec fn nav_down(d: Downloads) -> Downloads {
    let n = d.manager@.1.len();
    let files = d.local_files@.len();
    match d.selected {
        Some(i) => if i < last_position(n) {
            Downloads { selected: Some((i + 1) as usize), ..d }
        } else if files > 0 {
            Downloads { selected: None, selected_local: Some(0), ..d }
        } else {
            d
        },
        None => match d.selected_local {
            Some(i) => if files > 0 && i < files - 1 { Downloads { selected_local: Some((i + 1) as usize), ..d } } else { d },
            None => if n > 0 {
                Downloads { selected: Some(0), ..d }
            } else if files > 0 {
                Downloads { selected_local: Some(0), ..d }
            } else {
                d
            },
        },
    }
}

/// Moving up the downloads panel: within the files one file up; from the
/// first file to the last download of the order, just above it (staying
/// when there is none); within the downloads one download up, staying at
/// the first; with nothing selected, the first file, else the first
/// download.
pub proof fn law_panel_up(d: Downloads)
    ensures
        ({
            let n = d.manager@.1.len();
            let up = nav_up(d);
            &&& (d.selected_local matches Some(i) && i > 0) ==> up == Downloads {
                selected_local: Some((d.selected_local.unwrap() - 1) as usize),
                ..d
            }
            &&& d.selected_local == Some(0usize) && n > 0 ==> up == Downloads {
                selected_local: None,
                selected: Some((n - 1) as usize),
                ..d
            }
            &&& d.selected_local == Some(0usize) && n == 0 ==> up == d
            &&& (d.selected_local is None && (d.selected matches Some(i) && i > 0)) ==> up == Downloads {
                selected: Some((d.selected.unwrap() - 1) as usize),
                ..d
            }
            &&& d.selected_local is None && d.selected == Some(0usize) ==> up == d
            &&& d.selected_local is None && d.selected is None ==> up == (if d.local_files@.len() > 0 {
                Downloads { selected_local: Some(0), ..d }
            } else if n > 0 {
                Downloads { selected: Some(0), ..d }
            } else {
                d
            })
        }),
{
}

/// Moving down the panel from a file and back up returns to that file,
/// except from the first file when there is no download to go up to (the
/// number of downloads fits a `usize`, as that of a real panel does).
pub proof fn law_panel_up_then_down(d: Downloads)
    requires
        d.manager@.1.len() <= usize::MAX,
        d.selected is None,
        d.selected_local matches Some(i) && i < d.local_files@.len() && (i > 0 || d.manager@.1.len() > 0),
    ensures
        nav_down(nav_up(d)) == d,
{
}

/// Moving down the panel: within the downloads one download down; from the
/// last download to the first file (staying when there is none); within
/// the files one file down, staying at the last; with nothing selected,
/// the first download, else the first file.
pub proof fn law_panel_down(d: Downloads)
    ensures
        ({
            let n = d.manager@.1.len();
            let files = d.local_files@.len();
            let down = nav_down(d);
            &&& (d.selected matches Some(i) && i + 1 < n) ==> down == Downloads {
                selected: Some((d.selected.unwrap() + 1) as usize),
                ..d
            }
            &&& (d.selected matches Some(i) && i + 1 == n && files > 0) ==> down == Downloads {
                selected: None,
                selected_local: Some(0),
                ..d
            }
            &&& (d.selected is None && (d.selected_local matches Some(i) && i + 1 < files)) ==> down == Downloads {
                selected_local: Some((d.selected_local.unwrap() + 1) as usize),
                ..d
            }
            &&& (d.selected is None && (d.selected_local matches Some(i) && i + 1 >= files)) ==> down == d
            &&& d.selected is None && d.selected_local is None ==> down == (if n > 0 {
                Downloads { selected: Some(0), ..d }
            } else if files > 0 {
                Downloads { selected_local: Some(0), ..d }
            } else {
                d
            })
        }),
{
}

/// The id of the download selected in the panel, if it names one.
pub open spec fn selected_download(d: Downloads) -> Option<Seq<char>> {
    match d.selected {
        Some(i) => if i < d.manager@.1.len() { Some(d.manager@.1[i as int]) } else { None },
        None => None,
    }
}

/// What pausing the download `id` does, by its state: a running download is
/// paused, a paused one resumed, a canceled or failed one started again
/// (and marked pending); others stay as they are.
pub open spec fn task_controlled(a: App, b: App, e: Seq<Effect>, id: Seq<char>) -> bool {
    let t = a.downloads.manager@.0[id];
    match t.status {
        DownloadStatus::Downloading => b == a && e.len() == 1 && (e[0] matches Effect::Control(
            DownloadControl::Pause(s),
        ) && s@ == id),
        DownloadStatus::Paused => b == a && e.len() == 1 && (e[0] matches Effect::Control(
            DownloadControl::Resume(s),
        ) && s@ == id),
        DownloadStatus::Canceled | DownloadStatus::Error(_) => {
            &&& e.len() == 1 && (e[0] matches Effect::StartDownload(v, f) && v == t.video && f == t.format_id)
            &&& b == App { downloads: Downloads { manager: b.downloads.manager, ..a.downloads }, ..a }
            &&& b.downloads.manager@ == (
                a.downloads.manager@.0.insert(id, DownloadTask { status: DownloadStatus::Pending, ..t }),
                a.downloads.manager@.1,
            )
        },
        _ => b == a && e.len() == 0,
    }
}

/// `p` on the downloads panel: controls the selected download when it is
/// known, else pauses or resumes the player.
pub open spec fn downloads_p(a: App, b: App, e: Seq<Effect>) -> bool {
    match selected_download(a.downloads) {
        Some(id) => if a.downloads.manager@.0.dom().contains(id) {
            task_controlled(a, b, e, id)
        } else {
            pause_toggled(a, b, e)
        },
        None => pause_toggled(a, b, e),
    }
}

/// `x` on the downloads panel: cancels the selected download, else deletes
/// the selected file (the result comes back to `file_deleted`), else stops
/// the player.
pub open spec fn downloads_x(a: App, b: App, e: Seq<Effect>) -> bool {
    match selected_download(a.downloads) {
        Some(id) => b == a && e.len() == 1 && (e[0] matches Effect::Control(DownloadControl::Cancel(s))
            && s@ == id),
        None => match selected_file(a.downloads) {
            Some(f) => b == a && e == seq![Effect::DeleteFile(f.path)],
            None => stopped(a, b) && stop_effects(e),
        },
    }
}

/// Right on the downloads panel: plays the selected file in a window unless
/// sound alone is playing; otherwise seeks five seconds on.
pub open spec fn downloads_right(a: App, b: App, e: Seq<Effect>) -> bool {
    match a.downloads.selected_local {
        Some(i) => if !a.playback.is_audio && i < a.downloads.local_files@.len() {
            external_play(a, b, e, a.downloads.local_files@[i as int].path@, a.downloads.local_files@[i as int].name)
        } else {
            sought(a, b, e, 5)
        },
        None => sought(a, b, e, 5),
    }
}

/// Space on the downloads panel: marks or unmarks the selected download,
/// else the selected file.
pub open spec fn download_marked(a: App, b: App, e: Seq<Effect>) -> bool {
    &&& e.len() == 0
    &&& match a.downloads.selected {
        Some(i) => b == App { downloads: Downloads { selected_set: b.downloads.selected_set, ..a.downloads }, ..a }
            && b.downloads.selected_set@ == toggled(a.downloads.selected_set@, i),
        None => match a.downloads.selected_local {
            Some(i) => b == App {
                downloads: Downloads { selected_local_set: b.downloads.selected_local_set, ..a.downloads },
                ..a
            } && b.downloads.selected_local_set@ == toggled(a.downloads.selected_local_set@, i),
            None => b == a,
        },
    }
}

/// What a key does on the downloads panel (others do nothing): Tab and Esc
/// go to the results; `q` quits; Backspace and `b` close the panel; `/` and
/// `s` edit the search bar; `k`/`j` and the arrows move through the
/// downloads and the files; Space marks; Enter opens the action menu on the
/// selection; `p` controls the selected download (else the player); `x`
/// cancels the selected download, else deletes the selected file, else
/// stops the player; `c` cleans up leftover partial downloads; `d` deletes
/// the marked files; Left, `[` and `]` seek; Right plays the selected file.
pub open spec fn downloads_key(a: App, b: App, e: Seq<Effect>, code: Key) -> bool {
    match code {
        Key::Tab | Key::Esc => b == App { state: AppState::Results, ..a } && e.len() == 0,
        Key::Char('q') => b == App { running: false, ..a } && e.len() == 0,
        Key::Backspace | Key::Char('b') => b == App {
            downloads: Downloads { show_panel: false, ..a.downloads },
            state: a.previous_app_state,
            ..a
        } && e.len() == 0,
        Key::Char('/') | Key::Char('s') => b == App { input_mode: InputMode::Editing, ..a } && e.len() == 0,
        Key::Up | Key::Char('k') => b == App { downloads: nav_up(a.downloads), ..a } && e.len() == 0,
        Key::Down | Key::Char('j') => b == App { downloads: nav_down(a.downloads), ..a } && e.len() == 0,
        Key::Char(' ') => download_marked(a, b, e),
        Key::Enter => e.len() == 0 && if a.downloads.selected_local is Some || a.downloads.selected is Some {
            b == App { previous_app_state: a.state, state: AppState::ActionMenu, ..a }
        } else {
            b == a
        },
        Key::Char('p') => downloads_p(a, b, e),
        Key::Char('x') => downloads_x(a, b, e),
        Key::Char('c') => b == a && e == seq![Effect::CleanupGarbage],
        Key::Char('d') => marked_deleted(a, b, e),
        Key::Left => sought(a, b, e, -5),
        Key::Right => downloads_right(a, b, e),
        Key::Char('[') => sought(a, b, e, -30),
        Key::Char(']') => sought(a, b, e, 30),
        _ => b == a && e.len() == 0,
    }
}

impl Downloads {
    /// Moves the selection up (see `nav_up`).
    pub fn up(&mut self)
        ensures
            *final(self) == nav_up(*old(self)),
    {
        let n = self.manager.len();
        match self.selected_local {
            Some(i) => {
                if i > 0 {
                    self.selected_local = Some(i - 1);
                } else if n > 0 {
                    self.selected_local = None;
                    self.selected = Some(n - 1);
                }
            },
            None => match self.selected {
                Some(i) => {
                    if i > 0 {
                        self.selected = Some(i - 1);
                    }
                },
                None => {
                    if self.local_files.len() > 0 {
                        self.selected_local = Some(0);
                    } else if n > 0 {
                        self.selected = Some(0);
                    }
                },
            },
        }
    }

    /// Moves the selection down (see `nav_down`).
    pub fn down(&mut self)
        ensures
            *final(self) == nav_down(*old(self)),
    {
        let n = self.manager.len();
        let files = self.local_files.len();
        match self.selected {
            Some(i) => {
                if i < n.wrapping_sub(1) {
                    self.selected = Some(i + 1);
                } else if files > 0 {
                    self.selected = None;
                    self.selected_local = Some(0);
                }
            },
            None => match self.selected_local {
                Some(i) => {
                    if files > 0 && i < files - 1 {
                        self.selected_local = Some(i + 1);
                    }
                },
                None => {
                    if n > 0 {
                        self.selected = Some(0);
                    } else if files > 0 {
                        self.selected_local = Some(0);
                    }
                },
            },
        }
    }

    /// The id of the selected download, when it names one.
    pub fn selected_id(&self) -> (r: Option<String>)
        ensures
            opt_text(r) == selected_download(*self),
    {
        match self.selected {
            Some(i) => match self.manager.id_at(i) {
                Some(s) => Some(s.clone()),
                None => None,
            },
            None => None,
        }
    }
}

impl App {
    /// Pauses, resumes or restarts the download `id` by its state (see
    /// `task_controlled`).
    pub(crate) fn control_task(&mut self, id: &str) -> (effects: Vec<Effect>)
        requires
            old(self).downloads.manager@.0.dom().contains(id@),
        ensures
            task_controlled(*old(self), *final(self), effects@, id@),
    {
        let t = self.downloads.manager.get(id).unwrap();
        match &t.status {
            DownloadStatus::Downloading => vec![Effect::Control(DownloadControl::Pause(String::from_str(id)))],
            DownloadStatus::Paused => vec![Effect::Control(DownloadControl::Resume(String::from_str(id)))],
            DownloadStatus::Canceled | DownloadStatus::Error(_) => {
                let video = t.video.duplicate();
                let format_id = t.format_id.clone();
                self.downloads.manager.set_status(id, DownloadStatus::Pending);
                vec![Effect::StartDownload(video, format_id)]
            },
            _ => Vec::new(),
        }
    }

    /// `p` on the downloads panel (see `downloads_p`).
    fn downloads_p(&mut self) -> (effects: Vec<Effect>)
        ensures
            downloads_p(*old(self), *final(self), effects@),
    {
        match self.downloads.selected_id() {
            Some(id) => {
                if self.downloads.manager.contains(id.as_str()) {
                    self.control_task(id.as_str())
                } else {
                    self.toggle_pause()
                }
            },
            None => self.toggle_pause(),
        }
    }

    /// `x` on the downloads panel (see `downloads_x`).
    fn downloads_x(&mut self) -> (effects: Vec<Effect>)
        ensures
            downloads_x(*old(self), *final(self), effects@),
    {
        match self.downloads.selected_id() {
            Some(id) => vec![Effect::Control(DownloadControl::Cancel(id))],
            None => {
                if let Some(i) = self.downloads.selected_local {
                    if i < self.downloads.local_files.len() {
                        let e = vec![Effect::DeleteFile(self.downloads.local_files[i].path.clone())];
                        assert(e@ =~= seq![Effect::DeleteFile(self.downloads.local_files@[i as int].path)]);
                        return e;
                    }
                }
                self.stop_playback()
            },
        }
    }

    /// Right on the downloads panel (see `downloads_right`).
    fn downloads_right(&mut self) -> (effects: Vec<Effect>)
        ensures
            downloads_right(*old(self), *final(self), effects@),
    {
        if let Some(i) = self.downloads.selected_local {
            if !self.playback.is_audio && i < self.downloads.local_files.len() {
                let path = self.downloads.local_files[i].path.clone();
                let name = self.downloads.local_files[i].name.clone();
                let effects = self.stop_playback();
                self.pending_action = Some((AppAction::WatchExternal, path, name));
                return effects;
            }
        }
        self.seek(5)
    }

    /// Space on the downloads panel (see `download_marked`).
    fn mark_download(&mut self) -> (effects: Vec<Effect>)
        ensures
            download_marked(*old(self), *final(self), effects@),
    {
        match self.downloads.selected {
            Some(i) => toggle_index(&mut self.downloads.selected_set, i),
            None => match self.downloads.selected_local {
                Some(i) => toggle_index(&mut self.downloads.selected_local_set, i),
                None => {},
            },
        }
        Vec::new()
    }

    /// Handles a key on the downloads panel (see `downloads_key`).
    pub fn downloads_key(&mut self, code: Key) -> (effects: Vec<Effect>)
        ensures
            downloads_key(*old(self), *final(self), effects@, code),
    {
        match code {
            Key::Tab | Key::Esc => {
                self.state = AppState::Results;
                Vec::new()
            },
            Key::Char('q') => {
                self.running = false;
                Vec::new()
            },
            Key::Backspace | Key::Char('b') => {
                self.downloads.show_panel = false;
                self.state = self.previous_app_state;
                Vec::new()
            },
            Key::Char('/') | Key::Char('s') => {
                self.input_mode = InputMode::Editing;
                Vec::new()
            },
            Key::Up | Key::Char('k') => {
                self.downloads.up();
                Vec::new()
            },
            Key::Down | Key::Char('j') => {
                self.downloads.down();
                Vec::new()
            },
            Key::Char(' ') => self.mark_download(),
            Key::Enter => {
                if self.downloads.selected_local.is_some() || self.downloads.selected.is_some() {
                    self.previous_app_state = self.state;
                    self.state = AppState::ActionMenu;
                }
                Vec::new()
            },
            Key::Char('p') => self.downloads_p(),
            Key::Char('x') => self.downloads_x(),
            Key::Char('c') => {
                let e = vec![Effect::CleanupGarbage];
                assert(e@ =~= seq![Effect::CleanupGarbage]);
                e
            },
            Key::Char('d') => self.delete_marked(),
            Key::Left => self.seek(-5),
            Key::Right => self.downloads_right(),
            Key::Char('[') => self.seek(-30),
            Key::Char(']') => self.seek(30),
            _ => Vec::new(),
        }
    }
}
} // verus!
