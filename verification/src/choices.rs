//! What choosing an entry of the action menu does.
use vstd::prelude::*;
use crate::text::{opt_text, decimal, push_decimal};
use crate::model::{Video, VideoType, LocalFile, DownloadTask, DownloadStatus};
use crate::state::{InputMode, AppState, AppAction, Key, Action, DownloadControl, DownloadDialogMode, FormatSelectionMode, AfterScan, Effect};
use crate::app::{App, Downloads, Results, Menus, Playback, PlaylistLevel, text_is, message, message_of, stopped, stop_effects, stopped_playback, search_effect};
use crate::actions::{Entry, entries, available_actions, menu_context, selected_file};
use crate::keys::{selected_result, selected_download, task_controlled};
use crate::manager::without;
use crate::local::{is_audio_ext};
use crate::text::lower_str;
use crate::yt::{playlist_address, or_text, wrap64};

verus! {

broadcast use vstd::string::group_string_axioms;

/// Whether pressing `code` picks the entry: its own key, or `i` and `c` for
/// copying (the channel id and the address).
pub open spec fn picks(en: Entry, code: Key) -> bool {
    en.0 == code || (en.2 == AppAction::CopyUrlOrId && (code == Key::Char('i') || code == Key::Char('c')))
}

/// The first entry that `code` picks.
pub open spec fn picked(s: Seq<Entry>, code: Key) -> Option<Entry>
    decreases s.len(),
{
    if s.len() == 0 {
        None
    } else if picks(s[0], code) {
        Some(s[0])
    } else {
        picked(s.drop_first(), code)
    }
}

/// Playing the selected local file as `act` (in a window, or as sound):
/// the player is stopped and the playback left for the caller to start.
pub open spec fn file_played(a: App, b: App, e: Seq<Effect>, act: AppAction) -> bool {
    match selected_file(a.downloads) {
        Some(f) => {
            &&& stop_effects(e)
            &&& b.pending_action matches Some((x, u, t)) && x == act && u == f.path && t == f.name
            &&& b.state == a.previous_app_state
            &&& stopped(a, App { pending_action: a.pending_action, state: a.state, ..b })
        },
        None => b == a && e.len() == 0,
    }
}

/// Playing the selected local file in the terminal: sound files are played
/// as sound; other files are handed to the terminal player.
pub open spec fn file_played_here(a: App, b: App, e: Seq<Effect>) -> bool {
    match selected_file(a.downloads) {
        Some(f) => {
            &&& stop_effects(e)
            &&& b.state == a.previous_app_state
            &&& if is_audio_ext(lower_str(f.extension@)) {
                &&& b.pending_action matches Some((x, u, t)) && x == AppAction::ListenAudio && u == f.path && t == f.name
                &&& stopped(a, App { pending_action: a.pending_action, state: a.state, ..b })
            } else {
                &&& b.playback.is_terminal
                &&& b.playback.terminal_ready_url == Some(f.path)
                &&& stopped(
                    a,
                    App {
                        playback: Playback { is_terminal: a.playback.is_terminal, terminal_ready_url: None, ..b.playback },
                        state: a.state,
                        ..b
                    },
                )
            }
        },
        None => b == a && e.len() == 0,
    }
}

/// The paths of the files at the marked positions that exist, in order.
pub open spec fn marked_paths(files: Seq<LocalFile>, marks: Seq<usize>) -> Seq<String>
    decreases marks.len(),
{
    if marks.len() == 0 {
        Seq::empty()
    } else {
        let before = marked_paths(files, marks.drop_last());
        if marks.last() < files.len() {
            before.push(files[marks.last() as int].path)
        } else {
            before
        }
    }
}

/// Deleting the marked files where the panel stands: they are deleted, the
/// marks dropped (and the selection with them when it was marked), the
/// directory rescanned, and the status line says how many were marked.
pub open spec fn marked_deleted(a: App, b: App, e: Seq<Effect>) -> bool {
    let d = a.downloads;
    let marks = d.selected_local_set@;
    &&& b == App {
        downloads: Downloads {
            selected_local: match d.selected_local {
                Some(i) => if marks.contains(i) { None } else { Some(i) },
                None => None,
            },
            selected_local_set: b.downloads.selected_local_set,
            ..d
        },
        status_message: b.status_message,
        ..a
    }
    &&& b.downloads.selected_local_set@.len() == 0
    &&& text_is(b.status_message, "Deleted "@ + decimal(marks.len()) + " files."@)
    &&& e.len() == 2
    &&& e[0] matches Effect::DeleteFiles(v) && v@ == marked_paths(d.local_files@, marks)
    &&& e[1] == Effect::RefreshLocalFiles(AfterScan::Nothing)
}

/// Deleting the marked files from the action menu: as `marked_deleted`,
/// and the menu closes.
pub open spec fn files_deleted(a: App, b: App, e: Seq<Effect>) -> bool {
    &&& marked_deleted(a, App { state: a.state, ..b }, e)
    &&& b.state == a.previous_app_state
}

/// A download is active while it is pending, running or paused.
pub open spec fn is_active(s: DownloadStatus) -> bool {
    s == DownloadStatus::Downloading || s == DownloadStatus::Pending || s == DownloadStatus::Paused
}

/// Work planned for one download, in the order it is to be done.
pub ghost enum Planned {
    Resume(Seq<char>),
    Cancel(Seq<char>),
    Start(Video, String),
    DeleteFiles(String),
}

/// The effect carries out the planned work.
pub open spec fn carries_out(e: Effect, p: Planned) -> bool {
    match p {
        Planned::Resume(id) => e matches Effect::Control(DownloadControl::Resume(s)) && s@ == id,
        Planned::Cancel(id) => e matches Effect::Control(DownloadControl::Cancel(s)) && s@ == id,
        Planned::Start(v, f) => e == Effect::StartDownload(v, f),
        Planned::DeleteFiles(p) => e == Effect::DeleteTaskFiles(p),
    }
}

/// The effects carry out the planned work, in order.
pub open spec fn all_carried_out(e: Seq<Effect>, p: Seq<Planned>) -> bool {
    e.len() == p.len() && forall|j: int| 0 <= j < e.len() ==> carries_out(#[trigger] e[j], p[j])
}

/// The downloads as a table and an order.
pub type Table = (Map<Seq<char>, DownloadTask>, Seq<Seq<char>>);

/// Resuming the download at position `i` of the order: a paused one is
/// resumed, a canceled or failed one started again (and marked pending).
pub open spec fn resume_one(t: Table, i: usize) -> (Table, Seq<Planned>) {
    if i < t.1.len() && t.0.dom().contains(t.1[i as int]) {
        let id = t.1[i as int];
        let task = t.0[id];
        match task.status {
            DownloadStatus::Paused => (t, seq![Planned::Resume(id)]),
            DownloadStatus::Canceled | DownloadStatus::Error(_) => (
                (t.0.insert(id, DownloadTask { status: DownloadStatus::Pending, ..task }), t.1),
                seq![Planned::Start(task.video, task.format_id)],
            ),
            _ => (t, Seq::empty()),
        }
    } else {
        (t, Seq::empty())
    }
}

/// Resuming the downloads at the marked positions, one after another.
pub open spec fn resume_marked(t: Table, marks: Seq<usize>) -> (Table, Seq<Planned>)
    decreases marks.len(),
{
    if marks.len() == 0 {
        (t, Seq::empty())
    } else {
        let (t1, p1) = resume_marked(t, marks.drop_last());
        let (t2, p2) = resume_one(t1, marks.last());
        (t2, p1 + p2)
    }
}

/// Cancelling the download at position `i` of the order: an active one is
/// cancelled; any other is forgotten, with its files deleted.
pub open spec fn cancel_one(t: Table, i: usize) -> (Table, Seq<Planned>) {
    if i < t.1.len() {
        let id = t.1[i as int];
        if t.0.dom().contains(id) && is_active(t.0[id].status) {
            (t, seq![Planned::Cancel(id)])
        } else {
            let del = if t.0.dom().contains(id) && t.0[id].info_json_path is Some {
                seq![Planned::DeleteFiles(t.0[id].info_json_path.unwrap())]
            } else {
                Seq::empty()
            };
            ((t.0.remove(id), without(t.1, id)), del)
        }
    } else {
        (t, Seq::empty())
    }
}

/// Cancelling the downloads at the marked positions, one after another
/// (positions are read in the order as it stands at each step).
pub open spec fn cancel_marked(t: Table, marks: Seq<usize>) -> (Table, Seq<Planned>)
    decreases marks.len(),
{
    if marks.len() == 0 {
        (t, Seq::empty())
    } else {
        let (t1, p1) = cancel_marked(t, marks.drop_last());
        let (t2, p2) = cancel_one(t1, marks.last());
        (t2, p1 + p2)
    }
}

/// The video an action applies to: the selected download's over the
/// downloads panel, else the selected result.
pub open spec fn target_video(a: App) -> Option<Video> {
    if menu_context(a) == AppState::Downloads {
        match selected_download(a.downloads) {
            Some(id) => if a.downloads.manager@.0.dom().contains(id) {
                Some(a.downloads.manager@.0[id].video)
            } else {
                None
            },
            None => None,
        }
    } else {
        selected_result(a.results)
    }
}

/// The list a playlist action opens and its title: the playlist itself,
/// else the playlist the video belongs to, else the video's address.
pub open spec fn playlist_target(v: Video) -> (Seq<char>, Seq<char>) {
    if v.video_type == VideoType::Playlist {
        (playlist_address(v.id@), v.title@)
    } else if v.parent_playlist_url is Some {
        (v.parent_playlist_url.unwrap()@, or_text(opt_text(v.parent_playlist_title), "Playlist"@))
    } else {
        (v.url@, v.title@)
    }
}

/// Opening a playlist: the current results are kept under it, and its
/// entries are asked for under a new search id.
pub open spec fn playlist_opened(a: App, b: App, e: Seq<Effect>, v: Video) -> bool {
    let (query, title) = playlist_target(v);
    let id = wrap64(a.results.search_id + 1);
    &&& b == App {
        results: Results {
            items: b.results.items,
            playlist_stack: b.results.playlist_stack,
            selected_playlist_indices: b.results.selected_playlist_indices,
            selected: Some(0),
            offset: 1,
            is_playlist_mode: true,
            is_url_mode: true,
            is_searching: true,
            progress: Some((0u32, 1u32)),
            search_id: id,
            ..a.results
        },
        status_message: b.status_message,
        state: AppState::Results,
        ..a
    }
    &&& b.results.items@.len() == 0
    &&& b.results.selected_playlist_indices@.len() == 0
    &&& b.results.playlist_stack@ == a.results.playlist_stack@.push(
        PlaylistLevel { parent: v, children: a.results.items, selected: a.results.selected },
    )
    &&& text_is(b.status_message, "Loading playlist: "@ + title + "..."@)
    &&& e.len() == 1
    &&& search_effect(e[0], query, 1, a.prefs.playlist_limit, id, a.prefs.show_live, a.prefs.show_playlists)
}

/// What an action on the video `v` does, once `v` is the menu's video (in
/// state `a`).
pub open spec fn video_acted(a: App, b: App, e: Seq<Effect>, act: AppAction, code: Key, v: Video) -> bool {
    let back = App { state: a.previous_app_state, ..a };
    match act {
        AppAction::ViewPlaylist => playlist_opened(a, b, e, v),
        AppAction::Download => b == App {
            menus: Menus { dialog_mode: DownloadDialogMode::Single, dialog_index: 0, ..a.menus },
            state: AppState::DownloadDialog,
            ..a
        } && e.len() == 0,
        AppAction::WatchExternal => {
            &&& b == App {
                input_mode: InputMode::Loading,
                status_message: b.status_message,
                menus: Menus { format_mode: FormatSelectionMode::Watch, ..a.menus },
                ..a
            }
            &&& text_is(b.status_message, "Fetching formats..."@)
            &&& e == seq![Effect::FetchFormats(v.url)]
        },
        AppAction::WatchInTerminal => {
            &&& b == App {
                playback: Playback {
                    terminal_loading: true,
                    terminal_loading_progress: 0,
                    terminal_loading_error: None,
                    terminal_ready_url: None,
                    ..stopped_playback(a.playback)
                },
                status_message: b.status_message,
                state: a.previous_app_state,
                ..a
            }
            &&& text_is(b.status_message, "Stopped."@)
            &&& e == seq![Effect::StopPlayer, Effect::MediaPlaying(false), Effect::StartTerminalLoading(v.url)]
        },
        AppAction::DownloadSelected => e.len() == 0 && if a.results.selected_playlist_indices@.len() == 0 {
            b == App { status_message: b.status_message, ..back } && text_is(b.status_message, "No videos selected."@)
        } else {
            b == App {
                menus: Menus { dialog_mode: DownloadDialogMode::BulkSelected, dialog_index: 0, ..a.menus },
                state: AppState::DownloadDialog,
                ..a
            }
        },
        AppAction::DownloadPlaylist => b == App {
            menus: Menus { dialog_mode: DownloadDialogMode::BulkAll, dialog_index: 0, ..a.menus },
            state: AppState::DownloadDialog,
            ..a
        } && e.len() == 0,
        AppAction::CopyUrlOrId => b == back && e.len() == 1 && (e[0] matches Effect::CopyText(t, l) && if code
            == Key::Char('i') {
            t == v.channel_id && l@ == "Channel ID"@
        } else {
            t == v.url && l@ == "URL"@
        }),
        AppAction::OpenInBrowser => b == back && e == seq![
            Effect::OpenBrowser(
                if a.results.playlist_stack@.len() == 0 && v.parent_playlist_url is Some {
                    v.parent_playlist_url.unwrap()
                } else {
                    v.url
                },
            ),
        ],
        _ => b == App { pending_action: Some((act, v.url, v.title)), ..back } && e.len() == 0,
    }
}

/// What choosing the action `act` (picked with `code`) does.
pub open spec fn action_done(a: App, b: App, e: Seq<Effect>, act: AppAction, code: Key) -> bool {
    let back = App { state: a.previous_app_state, ..a };
    let d = a.downloads;
    match act {
        AppAction::PlayLocalExternal => file_played(a, b, e, AppAction::WatchExternal),
        AppAction::PlayLocalTerminal => file_played_here(a, b, e),
        AppAction::PlayLocalAudio => file_played(a, b, e, AppAction::ListenAudio),
        AppAction::DeleteLocalFile => b == back && match selected_file(d) {
            Some(f) => e == seq![Effect::DeleteFile(f.path)],
            None => e.len() == 0,
        },
        AppAction::DeleteSelectedLocalFiles => files_deleted(a, b, e),
        AppAction::ResumeDownload => b.state == a.previous_app_state && match selected_download(d) {
            Some(id) => if d.manager@.0.dom().contains(id) {
                task_controlled(a, App { state: a.state, ..b }, e, id)
            } else {
                b == back && e.len() == 0
            },
            None => b == back && e.len() == 0,
        },
        AppAction::ResumeSelectedDownloads => {
            let (t, p) = resume_marked(d.manager@, d.selected_set@);
            &&& b == App {
                downloads: Downloads { manager: b.downloads.manager, selected_set: b.downloads.selected_set, ..d },
                ..back
            }
            &&& b.downloads.manager@ == t
            &&& b.downloads.selected_set@.len() == 0
            &&& all_carried_out(e, p)
        },
        AppAction::CancelDownload => match selected_download(d) {
            Some(id) => if d.manager@.0.dom().contains(id) && is_active(d.manager@.0[id].status) {
                b == back && e.len() == 1 && (e[0] matches Effect::Control(DownloadControl::Cancel(s)) && s@ == id)
            } else {
                let (t, p) = cancel_one(d.manager@, d.selected.unwrap());
                &&& b == App {
                    downloads: Downloads { manager: b.downloads.manager, selected: None, ..d },
                    ..back
                }
                &&& b.downloads.manager@ == t
                &&& all_carried_out(e, p)
            },
            None => b == back && e.len() == 0,
        },
        AppAction::CancelSelectedDownloads => {
            let (t, p) = cancel_marked(d.manager@, d.selected_set@);
            &&& b == App {
                downloads: Downloads {
                    manager: b.downloads.manager,
                    selected_set: b.downloads.selected_set,
                    selected: None,
                    ..d
                },
                ..back
            }
            &&& b.downloads.manager@ == t
            &&& b.downloads.selected_set@.len() == 0
            &&& all_carried_out(e, p)
        },
        AppAction::CleanupLocalGarbage => b == back && e == seq![Effect::CleanupGarbage],
        _ => match target_video(a) {
            Some(v) => video_acted(App { menus: Menus { action_video: Some(v), ..a.menus }, ..a }, b, e, act, code, v),
            None => b == a && e.len() == 0,
        },
    }
}

/// What a key does in the action menu: Esc and `q` close it; a key that
/// picks an entry (see `picks`) carries out its action; others do nothing.
pub open spec fn menu_key(a: App, b: App, e: Seq<Effect>, code: Key) -> bool {
    if code == Key::Esc || code == Key::Char('q') {
        b == App { state: a.previous_app_state, ..a } && e.len() == 0
    } else {
        match picked(available_actions(a), code) {
            Some(en) => action_done(a, b, e, en.2, code),
            None => b == a && e.len() == 0,
        }
    }
}

/// The entry of `v` that `code` picks, if any.
fn pick(v: &Vec<Action>, code: Key) -> (r: Option<AppAction>)
    ensures
        match picked(entries(v@), code) {
            Some(en) => r == Some(en.2),
            None => r is None,
        },
{
    let mut k: usize = 0;
    let ghost all = entries(v@);
    assert(all.skip(0) =~= all);
    while k < v.len()
        invariant
            k <= v@.len(),
            all == entries(v@),
            picked(all, code) == picked(all.skip(k as int), code),
        decreases v.len() - k,
    {
        let en = &v[k];
        assert(all.skip(k as int)[0] == (en.key, en.name@, en.action));
        if en.key == code || (en.action == AppAction::CopyUrlOrId && (code == Key::Char('i') || code == Key::Char('c'))) {
            return Some(en.action);
        }
        assert(all.skip(k as int).drop_first() =~= all.skip(k + 1));
        k = k + 1;
    }
    None
}


impl App {
    /// Plays the selected local file as `act` (see `file_played`).
    fn play_file(&mut self, act: AppAction) -> (effects: Vec<Effect>)
        ensures
            file_played(*old(self), *final(self), effects@, act),
    {
        if let Some(i) = self.downloads.selected_local {
            if i < self.downloads.local_files.len() {
                let path = self.downloads.local_files[i].path.clone();
                let name = self.downloads.local_files[i].name.clone();
                let effects = self.stop_playback();
                self.pending_action = Some((act, path, name));
                self.state = self.previous_app_state;
                return effects;
            }
        }
        Vec::new()
    }

    /// Plays the selected local file in the terminal (see `file_played_here`).
    fn play_file_here(&mut self) -> (effects: Vec<Effect>)
        ensures
            file_played_here(*old(self), *final(self), effects@),
    {
        if let Some(i) = self.downloads.selected_local {
            if i < self.downloads.local_files.len() {
                let path = self.downloads.local_files[i].path.clone();
                let name = self.downloads.local_files[i].name.clone();
                let audio = self.downloads.local_files[i].is_audio();
                let effects = self.stop_playback();
                if audio {
                    self.pending_action = Some((AppAction::ListenAudio, path, name));
                } else {
                    self.playback.is_terminal = true;
                    self.playback.terminal_ready_url = Some(path);
                }
                self.state = self.previous_app_state;
                return effects;
            }
        }
        Vec::new()
    }

    /// Deletes the selected local file (the result comes back to `file_deleted`).
    fn delete_file(&mut self) -> (effects: Vec<Effect>)
        ensures
            *final(self) == (App { state: old(self).previous_app_state, ..*old(self) }),
            match selected_file(old(self).downloads) {
                Some(f) => effects@ == seq![Effect::DeleteFile(f.path)],
                None => effects@.len() == 0,
            },
    {
        let mut effects: Vec<Effect> = Vec::new();
        if let Some(i) = self.downloads.selected_local {
            if i < self.downloads.local_files.len() {
                effects.push(Effect::DeleteFile(self.downloads.local_files[i].path.clone()));
                assert(effects@ =~= seq![Effect::DeleteFile(self.downloads.local_files@[i as int].path)]);
            }
        }
        self.state = self.previous_app_state;
        effects
    }

    /// Deletes the marked local files (see `marked_deleted`).
    pub(crate) fn delete_marked(&mut self) -> (effects: Vec<Effect>)
        ensures
            marked_deleted(*old(self), *final(self), effects@),
    {
        let marks = &self.downloads.selected_local_set;
        let files = &self.downloads.local_files;
        let mut paths: Vec<String> = Vec::new();
        let mut k: usize = 0;
        let mut selected_marked = false;
        while k < marks.len()
            invariant
                k <= marks@.len(),
                paths@ == marked_paths(files@, marks@.take(k as int)),
                selected_marked == (self.downloads.selected_local matches Some(i) && marks@.take(k as int).contains(i)),
                *marks == self.downloads.selected_local_set,
                *files == self.downloads.local_files,
            decreases marks.len() - k,
        {
            assert(marks@.take(k + 1).drop_last() =~= marks@.take(k as int));
            let i = marks[k];
            if i < files.len() {
                paths.push(files[i].path.clone());
            }
            if let Some(sel) = self.downloads.selected_local {
                if sel == i {
                    selected_marked = true;
                }
            }
            proof {
                assert(marks@.take(k + 1) =~= marks@.take(k as int).push(i));
                if let Some(sel) = self.downloads.selected_local {
                    vstd::seq_lib::lemma_seq_contains_after_push(marks@.take(k as int), i, sel);
                }
            }
            k = k + 1;
        }
        assert(marks@.take(marks@.len() as int) =~= marks@);
        let count = marks.len();
        if selected_marked {
            self.downloads.selected_local = None;
        }
        self.downloads.selected_local_set = Vec::new();
        let mut m = String::from_str("Deleted ");
        push_decimal(&mut m, count as u64);
        m.append(" files.");
        self.status_message = Some(m);
        let e = vec![Effect::DeleteFiles(paths), Effect::RefreshLocalFiles(AfterScan::Nothing)];
        e
    }

    /// Deletes the marked local files and closes the menu (see `files_deleted`).
    fn delete_files(&mut self) -> (effects: Vec<Effect>)
        ensures
            files_deleted(*old(self), *final(self), effects@),
    {
        let effects = self.delete_marked();
        self.state = self.previous_app_state;
        effects
    }
}

impl App {
    /// Resumes the download at position `i` of the order, as `resume_one` says.
    fn resume_at(&mut self, i: usize, effects: &mut Vec<Effect>, planned: Ghost<Seq<Planned>>) -> (p: Ghost<Seq<Planned>>)
        requires
            all_carried_out(old(effects)@, planned@),
        ensures
            final(self).downloads.manager@ == resume_one(old(self).downloads.manager@, i).0,
            p@ == planned@ + resume_one(old(self).downloads.manager@, i).1,
            all_carried_out(final(effects)@, p@),
            *final(self) == (App {
                downloads: Downloads { manager: final(self).downloads.manager, ..old(self).downloads },
                ..*old(self)
            }),
    {
        let ghost t0 = self.downloads.manager@;
        let id = match self.downloads.manager.id_at(i) {
            Some(s) => s.clone(),
            None => return Ghost(planned@ + Seq::empty()),
        };
        let (status_paused, restart, video, format_id) = match self.downloads.manager.get(id.as_str()) {
            Some(t) => match &t.status {
                DownloadStatus::Paused => (true, false, None, None),
                DownloadStatus::Canceled | DownloadStatus::Error(_) => (false, true, Some(t.video.duplicate()), Some(t.format_id.clone())),
                _ => (false, false, None, None),
            },
            None => {
                assert(planned@ + Seq::<Planned>::empty() =~= planned@);
                return Ghost(planned@ + Seq::empty());
            },
        };
        let ghost before = effects@;
        if status_paused {
            effects.push(Effect::Control(DownloadControl::Resume(id)));
            let ghost p = planned@ + seq![Planned::Resume(t0.1[i as int])];
            assert forall|j: int| 0 <= j < effects@.len() implies carries_out(#[trigger] effects@[j], p[j]) by {
                if j < before.len() {
                    assert(effects@[j] == before[j]);
                }
            }
            return Ghost(p);
        }
        if restart {
            let v = video.unwrap();
            let f = format_id.unwrap();
            self.downloads.manager.set_status(id.as_str(), DownloadStatus::Pending);
            effects.push(Effect::StartDownload(v, f));
            let ghost task = t0.0[t0.1[i as int]];
            let ghost p = planned@ + seq![Planned::Start(task.video, task.format_id)];
            assert forall|j: int| 0 <= j < effects@.len() implies carries_out(#[trigger] effects@[j], p[j]) by {
                if j < before.len() {
                    assert(effects@[j] == before[j]);
                }
            }
            return Ghost(p);
        }
        assert(planned@ + Seq::<Planned>::empty() =~= planned@);
        Ghost(planned@ + Seq::empty())
    }

    /// Resumes the marked downloads and drops the marks (see `action_done`).
    fn resume_marked_downloads(&mut self) -> (effects: Vec<Effect>)
        ensures
            final(self).downloads.manager@ == resume_marked(old(self).downloads.manager@, old(self).downloads.selected_set@).0,
            all_carried_out(effects@, resume_marked(old(self).downloads.manager@, old(self).downloads.selected_set@).1),
            final(self).downloads.selected_set@.len() == 0,
            *final(self) == (App {
                downloads: Downloads {
                    manager: final(self).downloads.manager,
                    selected_set: final(self).downloads.selected_set,
                    ..old(self).downloads
                },
                ..*old(self)
            }),
    {
        let ghost marks = self.downloads.selected_set@;
        let ghost t0 = self.downloads.manager@;
        let mut effects: Vec<Effect> = Vec::new();
        let mut planned: Ghost<Seq<Planned>> = Ghost(Seq::empty());
        let mut k: usize = 0;
        while k < self.downloads.selected_set.len()
            invariant
                k <= marks.len(),
                self.downloads.selected_set@ == marks,
                (self.downloads.manager@, planned@) == resume_marked(t0, marks.take(k as int)),
                all_carried_out(effects@, planned@),
                *self == (App {
                    downloads: Downloads { manager: self.downloads.manager, ..old(self).downloads },
                    ..*old(self)
                }),
            decreases marks.len() - k,
        {
            assert(marks.take(k + 1).drop_last() =~= marks.take(k as int));
            let i = self.downloads.selected_set[k];
            planned = self.resume_at(i, &mut effects, planned);
            k = k + 1;
        }
        assert(marks.take(marks.len() as int) =~= marks);
        self.downloads.selected_set = Vec::new();
        effects
    }

    /// Cancels the download at position `i` of the order, as `cancel_one` says.
    fn cancel_at(&mut self, i: usize, effects: &mut Vec<Effect>, planned: Ghost<Seq<Planned>>) -> (p: Ghost<Seq<Planned>>)
        requires
            all_carried_out(old(effects)@, planned@),
        ensures
            final(self).downloads.manager@ == cancel_one(old(self).downloads.manager@, i).0,
            p@ == planned@ + cancel_one(old(self).downloads.manager@, i).1,
            all_carried_out(final(effects)@, p@),
            *final(self) == (App {
                downloads: Downloads { manager: final(self).downloads.manager, ..old(self).downloads },
                ..*old(self)
            }),
    {
        let ghost t0 = self.downloads.manager@;
        let id = match self.downloads.manager.id_at(i) {
            Some(s) => s.clone(),
            None => {
                assert(planned@ + Seq::<Planned>::empty() =~= planned@);
                return Ghost(planned@ + Seq::empty());
            },
        };
        let (active, json) = match self.downloads.manager.get(id.as_str()) {
            Some(t) => {
                let active = match &t.status {
                    DownloadStatus::Downloading | DownloadStatus::Pending | DownloadStatus::Paused => true,
                    _ => false,
                };
                (active, crate::model::copy_opt(&t.info_json_path))
            },
            None => (false, None),
        };
        let ghost before = effects@;
        if active {
            effects.push(Effect::Control(DownloadControl::Cancel(id)));
            let ghost p = planned@ + seq![Planned::Cancel(t0.1[i as int])];
            assert forall|j: int| 0 <= j < effects@.len() implies carries_out(#[trigger] effects@[j], p[j]) by {
                if j < before.len() {
                    assert(effects@[j] == before[j]);
                }
            }
            return Ghost(p);
        }
        let ghost p = if json is Some {
            planned@ + seq![Planned::DeleteFiles(json.unwrap())]
        } else {
            planned@ + Seq::empty()
        };
        if let Some(path) = json {
            effects.push(Effect::DeleteTaskFiles(path));
        }
        assert forall|j: int| 0 <= j < effects@.len() implies carries_out(#[trigger] effects@[j], p[j]) by {
            if j < before.len() {
                assert(effects@[j] == before[j]);
            }
        }
        self.downloads.manager.remove(id.as_str());
        Ghost(p)
    }

    /// Cancels the marked downloads, drops the marks and the selection (see
    /// `action_done`).
    fn cancel_marked_downloads(&mut self) -> (effects: Vec<Effect>)
        ensures
            final(self).downloads.manager@ == cancel_marked(old(self).downloads.manager@, old(self).downloads.selected_set@).0,
            all_carried_out(effects@, cancel_marked(old(self).downloads.manager@, old(self).downloads.selected_set@).1),
            final(self).downloads.selected_set@.len() == 0,
            *final(self) == (App {
                downloads: Downloads {
                    manager: final(self).downloads.manager,
                    selected_set: final(self).downloads.selected_set,
                    selected: None,
                    ..old(self).downloads
                },
                ..*old(self)
            }),
    {
        let ghost marks = self.downloads.selected_set@;
        let ghost t0 = self.downloads.manager@;
        let mut effects: Vec<Effect> = Vec::new();
        let mut planned: Ghost<Seq<Planned>> = Ghost(Seq::empty());
        let mut k: usize = 0;
        while k < self.downloads.selected_set.len()
            invariant
                k <= marks.len(),
                self.downloads.selected_set@ == marks,
                (self.downloads.manager@, planned@) == cancel_marked(t0, marks.take(k as int)),
                all_carried_out(effects@, planned@),
                *self == (App {
                    downloads: Downloads { manager: self.downloads.manager, ..old(self).downloads },
                    ..*old(self)
                }),
            decreases marks.len() - k,
        {
            assert(marks.take(k + 1).drop_last() =~= marks.take(k as int));
            let i = self.downloads.selected_set[k];
            planned = self.cancel_at(i, &mut effects, planned);
            k = k + 1;
        }
        assert(marks.take(marks.len() as int) =~= marks);
        self.downloads.selected_set = Vec::new();
        self.downloads.selected = None;
        effects
    }
}

/// The query and title a playlist action opens.
fn playlist_query(v: &Video) -> (r: (String, String))
    ensures
        (r.0@, r.1@) == playlist_target(*v),
{
    if v.video_type == VideoType::Playlist {
        (crate::yt::playlist_url(v.id.as_str()), v.title.clone())
    } else {
        match &v.parent_playlist_url {
            Some(u) => {
                let t = match &v.parent_playlist_title {
                    Some(t) => t.clone(),
                    None => String::from_str("Playlist"),
                };
                (u.clone(), t)
            },
            None => (v.url.clone(), v.title.clone()),
        }
    }
}

impl App {
    /// The video an action applies to (see `target_video`).
    fn target(&self) -> (r: Option<Video>)
        ensures
            r == target_video(*self),
    {
        let context = if self.state == AppState::ActionMenu {
            self.previous_app_state
        } else {
            self.state
        };
        if context == AppState::Downloads {
            match self.downloads.selected_id() {
                Some(id) => match self.downloads.manager.get(id.as_str()) {
                    Some(t) => Some(t.video.duplicate()),
                    None => None,
                },
                None => None,
            }
        } else {
            match self.results.selected {
                Some(i) => {
                    if i < self.results.items.len() {
                        Some(self.results.items[i].duplicate())
                    } else {
                        None
                    }
                },
                None => None,
            }
        }
    }

    /// Opens the playlist of `v` (see `playlist_opened`).
    fn open_playlist(&mut self, v: &Video) -> (effects: Vec<Effect>)
        ensures
            playlist_opened(*old(self), *final(self), effects@, *v),
    {
        let (query, title) = playlist_query(v);
        let mut children: Vec<Video> = Vec::new();
        std::mem::swap(&mut children, &mut self.results.items);
        let level = PlaylistLevel { parent: v.duplicate(), children, selected: self.results.selected };
        self.results.playlist_stack.push(level);
        self.results.selected_playlist_indices = Vec::new();
        self.results.selected = Some(0);
        self.results.offset = 1;
        self.results.is_playlist_mode = true;
        self.results.is_url_mode = true;
        self.results.is_searching = true;
        self.results.progress = Some((0, 1));
        self.results.search_id = self.results.search_id.wrapping_add(1);
        assert(self.results.search_id == wrap64(old(self).results.search_id + 1)) by {
            assert(0x1_0000_0000_0000_0000 == u64::MAX + 1);
        }
        let mut m = String::from_str("Loading playlist: ");
        m.append(title.as_str());
        m.append("...");
        self.status_message = Some(m);
        self.state = AppState::Results;
        vec![
            Effect::Search {
                query,
                start: 1,
                end: self.prefs.playlist_limit,
                search_id: self.results.search_id,
                show_live: self.prefs.show_live,
                show_playlists: self.prefs.show_playlists,
            },
        ]
    }

    /// Carries out `act` on the video `v`, the menu's video (see `video_acted`).
    fn video_action(&mut self, act: AppAction, code: Key, v: Video) -> (effects: Vec<Effect>)
        ensures
            video_acted(*old(self), *final(self), effects@, act, code, v),
    {
        match act {
            AppAction::ViewPlaylist => self.open_playlist(&v),
            AppAction::Download => {
                self.menus.dialog_mode = DownloadDialogMode::Single;
                self.menus.dialog_index = 0;
                self.state = AppState::DownloadDialog;
                Vec::new()
            },
            AppAction::WatchExternal => {
                let url = v.url.clone();
                self.input_mode = InputMode::Loading;
                self.status_message = message_of("Fetching formats...");
                self.menus.format_mode = FormatSelectionMode::Watch;
                let e = vec![Effect::FetchFormats(url)];
                assert(e@ =~= seq![Effect::FetchFormats(v.url)]);
                e
            },
            AppAction::WatchInTerminal => {
                let mut e = self.stop_playback();
                let mut l = self.start_terminal_loading(v.url.clone());
                self.state = self.previous_app_state;
                e.append(&mut l);
                assert(e@ =~= seq![Effect::StopPlayer, Effect::MediaPlaying(false), Effect::StartTerminalLoading(v.url)]);
                e
            },
            AppAction::DownloadSelected => {
                if self.results.selected_playlist_indices.len() == 0 {
                    self.status_message = message_of("No videos selected.");
                    self.state = self.previous_app_state;
                } else {
                    self.menus.dialog_mode = DownloadDialogMode::BulkSelected;
                    self.menus.dialog_index = 0;
                    self.state = AppState::DownloadDialog;
                }
                Vec::new()
            },
            AppAction::DownloadPlaylist => {
                self.menus.dialog_mode = DownloadDialogMode::BulkAll;
                self.menus.dialog_index = 0;
                self.state = AppState::DownloadDialog;
                Vec::new()
            },
            AppAction::CopyUrlOrId => {
                let (text, label) = if code == Key::Char('i') {
                    (v.channel_id.clone(), String::from_str("Channel ID"))
                } else {
                    (v.url.clone(), String::from_str("URL"))
                };
                self.state = self.previous_app_state;
                vec![Effect::CopyText(text, label)]
            },
            AppAction::OpenInBrowser => {
                let target = if self.results.playlist_stack.len() == 0 {
                    match &v.parent_playlist_url {
                        Some(u) => u.clone(),
                        None => v.url.clone(),
                    }
                } else {
                    v.url.clone()
                };
                self.state = self.previous_app_state;
                let e = vec![Effect::OpenBrowser(target)];
                proof {
                    let t = if self.results.playlist_stack@.len() == 0 && v.parent_playlist_url is Some {
                        v.parent_playlist_url.unwrap()
                    } else {
                        v.url
                    };
                    assert(e@ =~= seq![Effect::OpenBrowser(t)]);
                }
                e
            },
            _ => {
                let url = v.url.clone();
                let title = v.title.clone();
                self.pending_action = Some((act, url, title));
                self.state = self.previous_app_state;
                Vec::new()
            },
        }
    }

    /// Carries out the action `act`, picked with `code` (see `action_done`).
    pub fn do_action(&mut self, act: AppAction, code: Key) -> (effects: Vec<Effect>)
        ensures
            action_done(*old(self), *final(self), effects@, act, code),
    {
        match act {
            AppAction::PlayLocalExternal => self.play_file(AppAction::WatchExternal),
            AppAction::PlayLocalTerminal => self.play_file_here(),
            AppAction::PlayLocalAudio => self.play_file(AppAction::ListenAudio),
            AppAction::DeleteLocalFile => self.delete_file(),
            AppAction::DeleteSelectedLocalFiles => self.delete_files(),
            AppAction::ResumeDownload => {
                let mut effects: Vec<Effect> = Vec::new();
                if let Some(id) = self.downloads.selected_id() {
                    if self.downloads.manager.contains(id.as_str()) {
                        effects = self.control_task(id.as_str());
                    }
                }
                self.state = self.previous_app_state;
                effects
            },
            AppAction::ResumeSelectedDownloads => {
                let effects = self.resume_marked_downloads();
                self.state = self.previous_app_state;
                effects
            },
            AppAction::CancelDownload => {
                let mut effects: Vec<Effect> = Vec::new();
                if let Some(id) = self.downloads.selected_id() {
                    let active = match self.downloads.manager.get(id.as_str()) {
                        Some(t) => match &t.status {
                            DownloadStatus::Downloading | DownloadStatus::Pending | DownloadStatus::Paused => true,
                            _ => false,
                        },
                        None => false,
                    };
                    if active {
                        effects.push(Effect::Control(DownloadControl::Cancel(id)));
                    } else {
                        let i = self.downloads.selected.unwrap();
                        let _ = self.cancel_at(i, &mut effects, Ghost(Seq::empty()));
                        self.downloads.selected = None;
                    }
                }
                self.state = self.previous_app_state;
                effects
            },
            AppAction::CancelSelectedDownloads => {
                let effects = self.cancel_marked_downloads();
                self.state = self.previous_app_state;
                effects
            },
            AppAction::CleanupLocalGarbage => {
                self.state = self.previous_app_state;
                let e = vec![Effect::CleanupGarbage];
                assert(e@ =~= seq![Effect::CleanupGarbage]);
                e
            },
            _ => match self.target() {
                Some(v) => {
                    self.menus.action_video = Some(v.duplicate());
                    self.video_action(act, code, v)
                },
                None => Vec::new(),
            },
        }
    }

    /// Handles a key in the action menu (see `menu_key`).
    pub fn handle_action_menu_key(&mut self, code: Key) -> (effects: Vec<Effect>)
        ensures
            menu_key(*old(self), *final(self), effects@, code),
    {
        if code == Key::Esc || code == Key::Char('q') {
            self.state = self.previous_app_state;
            return Vec::new();
        }
        let actions = self.get_available_actions();
        match pick(&actions, code) {
            Some(act) => self.do_action(act, code),
            None => Vec::new(),
        }
    }
}
} // verus!
