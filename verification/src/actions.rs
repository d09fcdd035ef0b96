//! The action menu: which actions it offers for the selection.
use vstd::prelude::*;
use crate::model::{Video, VideoType, LocalFile, DownloadStatus};
use crate::state::{AppState, AppAction, Key, Action};
use crate::app::{App, Downloads, Results};
use crate::keys::{selected_result, selected_download};

verus! {

broadcast use vstd::string::group_string_axioms;

/// A menu entry as a key, a label and an action.
pub type Entry = (Key, Seq<char>, AppAction);

/// The entries of a list of actions.
pub open spec fn entries(v: Seq<Action>) -> Seq<Entry> {
    v.map_values(|a: Action| (a.key, a.name@, a.action))
}

/// The screen the menu was opened over.
pub open spec fn menu_context(a: App) -> AppState {
    if a.state == AppState::ActionMenu {
        a.previous_app_state
    } else {
        a.state
    }
}

/// The selected local file, if any.
pub open spec fn selected_file(d: Downloads) -> Option<LocalFile> {
    match d.selected_local {
        Some(i) => if i < d.local_files@.len() { Some(d.local_files@[i as int]) } else { None },
        None => None,
    }
}

/// The entries for the selected local file: playing it (unless it is a
/// leftover) and deleting it.
pub open spec fn file_entries(d: Downloads) -> Seq<Entry> {
    match selected_file(d) {
        Some(f) => (if !f.is_garbage {
            seq![
                (Key::Char('w'), "Play (External)"@, AppAction::PlayLocalExternal),
                (Key::Char('t'), "Play (Terminal/Default)"@, AppAction::PlayLocalTerminal),
                (Key::Char('a'), "Play (Audio)"@, AppAction::PlayLocalAudio),
            ]
        } else {
            Seq::empty()
        }) + seq![(Key::Char('x'), "Delete File"@, AppAction::DeleteLocalFile)],
        None => Seq::empty(),
    }
}

/// The entries for the selected download: pausing, resuming or restarting
/// it by its state, and cancelling it.
pub open spec fn download_entries(d: Downloads) -> Seq<Entry> {
    match d.selected {
        Some(_) => {
            let control = match selected_download(d) {
                Some(id) => if d.manager@.0.dom().contains(id) {
                    match d.manager@.0[id].status {
                        DownloadStatus::Downloading | DownloadStatus::Pending => seq![
                            (Key::Char('p'), "Pause Download"@, AppAction::ResumeDownload),
                        ],
                        DownloadStatus::Paused => seq![(Key::Char('p'), "Resume Download"@, AppAction::ResumeDownload)],
                        DownloadStatus::Canceled | DownloadStatus::Error(_) => seq![
                            (Key::Char('p'), "Restart Download"@, AppAction::ResumeDownload),
                        ],
                        _ => Seq::empty(),
                    }
                } else {
                    Seq::empty()
                },
                None => Seq::empty(),
            };
            control + seq![(Key::Char('x'), "Cancel Download"@, AppAction::CancelDownload)]
        },
        None => Seq::empty(),
    }
}

/// The entries of the menu over the downloads panel.
pub open spec fn panel_entries(d: Downloads) -> Seq<Entry> {
    file_entries(d) + download_entries(d) + (if d.selected_set@.len() > 0 {
        seq![
            (Key::Char('P'), "Resume/Restart Selected"@, AppAction::ResumeSelectedDownloads),
            (Key::Char('X'), "Cancel Selected Downloads"@, AppAction::CancelSelectedDownloads),
        ]
    } else {
        Seq::empty()
    }) + (if d.selected_local_set@.len() > 0 {
        seq![(Key::Char('d'), "Delete Selected"@, AppAction::DeleteSelectedLocalFiles)]
    } else {
        Seq::empty()
    }) + seq![(Key::Char('c'), "Cleanup Garbage (.part, .ytdl)"@, AppAction::CleanupLocalGarbage)]
}

/// The entries for the selected result: opening or downloading a playlist;
/// for a video watching, playing in the terminal, listening, downloading,
/// opening in the browser and copying its address or channel id, and for a
/// video of a playlist opening or downloading that playlist.
pub open spec fn result_entries(r: Results) -> Seq<Entry> {
    match selected_result(r) {
        Some(v) => if v.video_type == VideoType::Playlist {
            seq![
                (Key::Enter, "Open Playlist"@, AppAction::ViewPlaylist),
                (Key::Char('l'), "Download All (Playlist)"@, AppAction::DownloadPlaylist),
            ]
        } else {
            seq![
                (Key::Char('w'), "Watch (External)"@, AppAction::WatchExternal),
                (Key::Char('t'), "Watch (In Terminal)"@, AppAction::WatchInTerminal),
                (Key::Char('a'), "Listen (Audio Only)"@, AppAction::ListenAudio),
                (Key::Char('d'), "Download"@, AppAction::Download),
                (Key::Char('o'), "Open in Browser"@, AppAction::OpenInBrowser),
                (Key::Char('c'), "Copy URL / Channel ID"@, AppAction::CopyUrlOrId),
            ] + (if v.parent_playlist_id is Some {
                seq![
                    (Key::Char('p'), "Open Parent Playlist"@, AppAction::ViewPlaylist),
                    (Key::Char('l'), "Download All (Parent Playlist)"@, AppAction::DownloadPlaylist),
                ]
            } else {
                Seq::empty()
            })
        },
        None => Seq::empty(),
    }
}

/// Whether some entry downloads a playlist.
pub open spec fn has_playlist_download(s: Seq<Entry>) -> bool {
    exists|i: int| 0 <= i < s.len() && #[trigger] s[i].2 == AppAction::DownloadPlaylist
}

/// The entries of the menu over the results: those of the selected
/// result, downloading the marked results, and downloading the whole open
/// playlist when nothing else offers it.
pub open spec fn results_entries(r: Results) -> Seq<Entry> {
    let first = result_entries(r) + (if r.selected_playlist_indices@.len() > 0 {
        seq![(Key::Char('s'), "Download Selected"@, AppAction::DownloadSelected)]
    } else {
        Seq::empty()
    });
    if r.playlist_stack@.len() > 0 && !has_playlist_download(first) {
        first.push((Key::Char('l'), "Download All (Current View)"@, AppAction::DownloadPlaylist))
    } else {
        first
    }
}

/// The actions the menu offers in the state `a`.
pub open spec fn available_actions(a: App) -> Seq<Entry> {
    if menu_context(a) == AppState::Downloads {
        panel_entries(a.downloads)
    } else {
        results_entries(a.results)
    }
}

/// Appends an entry.
fn push_entry(v: &mut Vec<Action>, key: Key, name: &'static str, action: AppAction)
    ensures
        entries(final(v)@) == entries(old(v)@).push((key, name@, action)),
{
    let ghost before = entries(v@);
    v.push(Action::new(key, name, action));
    assert(entries(v@) =~= before.push((key, name@, action)));
}

impl Downloads {
    /// Appends the entries for the selected local file.
    fn push_file_actions(&self, v: &mut Vec<Action>)
        ensures
            entries(final(v)@) == entries(old(v)@) + file_entries(*self),
    {
        let ghost before = entries(v@);
        if let Some(i) = self.selected_local {
            if i < self.local_files.len() {
                if !self.local_files[i].is_garbage {
                    push_entry(v, Key::Char('w'), "Play (External)", AppAction::PlayLocalExternal);
                    push_entry(v, Key::Char('t'), "Play (Terminal/Default)", AppAction::PlayLocalTerminal);
                    push_entry(v, Key::Char('a'), "Play (Audio)", AppAction::PlayLocalAudio);
                }
                push_entry(v, Key::Char('x'), "Delete File", AppAction::DeleteLocalFile);
            }
        }
        assert(entries(v@) =~= before + file_entries(*self));
    }

    /// Appends the entries for the selected download.
    fn push_download_actions(&self, v: &mut Vec<Action>)
        ensures
            entries(final(v)@) == entries(old(v)@) + download_entries(*self),
    {
        let ghost before = entries(v@);
        if let Some(i) = self.selected {
            if let Some(id) = self.manager.id_at(i) {
                if let Some(t) = self.manager.get(id.as_str()) {
                    match &t.status {
                        DownloadStatus::Downloading | DownloadStatus::Pending => {
                            push_entry(v, Key::Char('p'), "Pause Download", AppAction::ResumeDownload);
                        },
                        DownloadStatus::Paused => {
                            push_entry(v, Key::Char('p'), "Resume Download", AppAction::ResumeDownload);
                        },
                        DownloadStatus::Canceled | DownloadStatus::Error(_) => {
                            push_entry(v, Key::Char('p'), "Restart Download", AppAction::ResumeDownload);
                        },
                        _ => {},
                    }
                }
            }
            let ghost mid = entries(v@);
            push_entry(v, Key::Char('x'), "Cancel Download", AppAction::CancelDownload);
        }
        assert(entries(v@) =~= before + download_entries(*self));
    }

    /// The entries of the menu over the downloads panel.
    fn panel_actions(&self) -> (v: Vec<Action>)
        ensures
            entries(v@) == panel_entries(*self),
    {
        let mut v: Vec<Action> = Vec::new();
        self.push_file_actions(&mut v);
        self.push_download_actions(&mut v);
        let ghost p2 = entries(v@);
        if self.selected_set.len() > 0 {
            push_entry(&mut v, Key::Char('P'), "Resume/Restart Selected", AppAction::ResumeSelectedDownloads);
            push_entry(&mut v, Key::Char('X'), "Cancel Selected Downloads", AppAction::CancelSelectedDownloads);
        }
        let ghost p3 = entries(v@);
        if self.selected_local_set.len() > 0 {
            push_entry(&mut v, Key::Char('d'), "Delete Selected", AppAction::DeleteSelectedLocalFiles);
        }
        let ghost p4 = entries(v@);
        push_entry(&mut v, Key::Char('c'), "Cleanup Garbage (.part, .ytdl)", AppAction::CleanupLocalGarbage);
        assert(entries(v@) =~= panel_entries(*self));
        v
    }
}

impl Results {
    /// Appends the entries for the selected result.
    fn push_result_actions(&self, v: &mut Vec<Action>)
        ensures
            entries(final(v)@) == entries(old(v)@) + result_entries(*self),
    {
        let ghost before = entries(v@);
        if let Some(i) = self.selected {
            if i < self.items.len() {
                let item = &self.items[i];
                if item.video_type == VideoType::Playlist {
                    push_entry(v, Key::Enter, "Open Playlist", AppAction::ViewPlaylist);
                    push_entry(v, Key::Char('l'), "Download All (Playlist)", AppAction::DownloadPlaylist);
                } else {
                    push_entry(v, Key::Char('w'), "Watch (External)", AppAction::WatchExternal);
                    push_entry(v, Key::Char('t'), "Watch (In Terminal)", AppAction::WatchInTerminal);
                    push_entry(v, Key::Char('a'), "Listen (Audio Only)", AppAction::ListenAudio);
                    push_entry(v, Key::Char('d'), "Download", AppAction::Download);
                    push_entry(v, Key::Char('o'), "Open in Browser", AppAction::OpenInBrowser);
                    push_entry(v, Key::Char('c'), "Copy URL / Channel ID", AppAction::CopyUrlOrId);
                    let ghost six = entries(v@);
                    if item.parent_playlist_id.is_some() {
                        push_entry(v, Key::Char('p'), "Open Parent Playlist", AppAction::ViewPlaylist);
                        push_entry(v, Key::Char('l'), "Download All (Parent Playlist)", AppAction::DownloadPlaylist);
                    }
                }
            }
        }
        assert(entries(v@) =~= before + result_entries(*self));
    }

    /// The entries of the menu over the results.
    fn results_actions(&self) -> (v: Vec<Action>)
        ensures
            entries(v@) == results_entries(*self),
    {
        let mut v: Vec<Action> = Vec::new();
        self.push_result_actions(&mut v);
        assert(entries(v@) =~= result_entries(*self));
        if self.selected_playlist_indices.len() > 0 {
            push_entry(&mut v, Key::Char('s'), "Download Selected", AppAction::DownloadSelected);
        }
        let ghost first = entries(v@);
        assert(first =~= result_entries(*self) + (if self.selected_playlist_indices@.len() > 0 {
            seq![(Key::Char('s'), "Download Selected"@, AppAction::DownloadSelected)]
        } else {
            Seq::empty()
        }));
        if self.playlist_stack.len() > 0 {
            let mut found = false;
            let mut k: usize = 0;
            while k < v.len()
                invariant
                    k <= v@.len(),
                    first.len() == v@.len(),
                    entries(v@) == first,
                    found == (exists|j: int| 0 <= j < k && #[trigger] first[j].2 == AppAction::DownloadPlaylist),
                decreases v.len() - k,
            {
                assert(first[k as int].2 == v@[k as int].action);
                if v[k].action == AppAction::DownloadPlaylist {
                    found = true;
                }
                k = k + 1;
            }
            assert(found == has_playlist_download(first));
            if !found {
                push_entry(&mut v, Key::Char('l'), "Download All (Current View)", AppAction::DownloadPlaylist);
            }
        }
        v
    }
}

impl App {
    /// The actions the action menu offers (see `available_actions`).
    pub fn get_available_actions(&self) -> (v: Vec<Action>)
        ensures
            entries(v@) == available_actions(*self),
    {
        let context = if self.state == AppState::ActionMenu {
            self.previous_app_state
        } else {
            self.state
        };
        if context == AppState::Downloads {
            self.downloads.panel_actions()
        } else {
            self.results.results_actions()
        }
    }
}

} // verus!
