//! What keys do in the format picker and the download dialog.
use vstd::prelude::*;
use crate::text::opt_text;
use crate::model::{Video, VideoFormat, DownloadTask};
use crate::state::{InputMode, AppState, AppAction, Key, DownloadDialogMode, FormatSelectionMode, Effect};
use crate::app::{App, Downloads, Menus, Results, text_is, message_of, stopped, stop_effects};
use crate::manager::{DownloadManager, fresh_task};

verus! {

broadcast use vstd::string::group_string_axioms;

/// `after` is `before` with a pending download of `video` in `format_id`
/// added (see `DownloadManager::add_task`).
pub open spec fn task_added(before: DownloadManager, after: DownloadManager, video: Video, format_id: Seq<char>) -> bool {
    &&& after@.0.dom().contains(video.id@)
    &&& after@.0 == before@.0.insert(video.id@, after@.0[video.id@])
    &&& fresh_task(after@.0[video.id@], video, format_id)
    &&& after@.1 == before@.1.push(video.id@)
}

/// The screen the format picker returns to: the downloads panel when it
/// was opened from there, else the results.
pub open spec fn picker_exit(a: App) -> AppState {
    if a.previous_app_state == AppState::Downloads {
        AppState::Downloads
    } else {
        AppState::Results
    }
}

/// The format expression for a chosen format: a format without sound is
/// merged with the best sound; either falls back to the best picture and
/// sound, then the best file.
pub open spec fn format_expression(f: VideoFormat) -> Seq<char> {
    if !f.has_audio {
        f.format_id@ + "+bestaudio/bestvideo+bestaudio/best"@
    } else {
        f.format_id@ + "/bestvideo+bestaudio/best"@
    }
}

/// The format under the picker's selection, if any.
pub open spec fn picked_format(m: Menus) -> Option<VideoFormat> {
    match m.selected_format {
        Some(i) => if i < m.formats@.len() { Some(m.formats@[i as int]) } else { None },
        None => None,
    }
}

/// Enter in the format picker: with a format and a video, either downloads
/// the video in that format or plays it in a window in that format, and
/// goes back; without them it only goes back.
pub open spec fn format_entered(a: App, b: App, e: Seq<Effect>) -> bool {
    match (picked_format(a.menus), a.menus.action_video) {
        (Some(f), Some(v)) => match a.menus.format_mode {
            FormatSelectionMode::Download => {
                &&& task_added(a.downloads.manager, b.downloads.manager, v, format_expression(f))
                &&& e.len() == 1 && (e[0] matches Effect::StartDownload(w, x) && w == v && x@ == format_expression(f))
                &&& b == App {
                    downloads: Downloads { manager: b.downloads.manager, ..a.downloads },
                    state: picker_exit(a),
                    status_message: b.status_message,
                    menus: Menus { action_video: None, ..a.menus },
                    ..a
                }
                &&& text_is(b.status_message, "Download started..."@)
            },
            FormatSelectionMode::Watch => {
                &&& stop_effects(e)
                &&& b.pending_action matches Some((act, u, t)) && act == AppAction::WatchExternal
                    && u@ == v.url@ + "::"@ + format_expression(f) && t == v.title
                &&& b.state == picker_exit(a)
                &&& b.menus == Menus { action_video: None, ..a.menus }
                &&& stopped(a, App { pending_action: a.pending_action, state: a.state, menus: a.menus, ..b })
            },
        },
        _ => b == App { state: picker_exit(a), ..a } && e.len() == 0,
    }
}

/// What a key does in the format picker (others do nothing): Esc and `q`
/// go back to the action menu, `k`/`j` and the arrows move within the
/// formats, Enter takes the selected one.
pub open spec fn format_key(a: App, b: App, e: Seq<Effect>, code: Key) -> bool {
    match code {
        Key::Esc | Key::Char('q') => b == App { state: AppState::ActionMenu, ..a } && e.len() == 0,
        Key::Up | Key::Char('k') => e.len() == 0 && match a.menus.selected_format {
            Some(i) => if i > 0 {
                b == App { menus: Menus { selected_format: Some((i - 1) as usize), ..a.menus }, ..a }
            } else {
                b == a
            },
            None => b == a,
        },
        Key::Down | Key::Char('j') => e.len() == 0 && match a.menus.selected_format {
            Some(i) => if a.menus.formats@.len() > 0 && i < a.menus.formats@.len() - 1 {
                b == App { menus: Menus { selected_format: Some((i + 1) as usize), ..a.menus }, ..a }
            } else {
                b == a
            },
            None => b == a,
        },
        Key::Enter => format_entered(a, b, e),
        _ => b == a && e.len() == 0,
    }
}

/// The format expression for the format `f`.
fn format_expression_of(f: &VideoFormat) -> (r: String)
    ensures
        r@ == format_expression(*f),
{
    let mut r = f.format_id.clone();
    if !f.has_audio {
        r.append("+bestaudio/bestvideo+bestaudio/best");
    } else {
        r.append("/bestvideo+bestaudio/best");
    }
    r
}

impl App {
    /// Moves the format picker's selection by one row.
    fn format_move(&mut self, up: bool)
        ensures
            up ==> format_key(*old(self), *final(self), Seq::empty(), Key::Up),
            !up ==> format_key(*old(self), *final(self), Seq::empty(), Key::Down),
    {
        if let Some(i) = self.menus.selected_format {
            if up {
                if i > 0 {
                    self.menus.selected_format = Some(i - 1);
                }
            } else {
                let n = self.menus.formats.len();
                if n > 0 && i < n - 1 {
                    self.menus.selected_format = Some(i + 1);
                }
            }
        }
    }

    /// Enter in the format picker (see `format_entered`).
    fn format_enter(&mut self) -> (effects: Vec<Effect>)
        ensures
            format_entered(*old(self), *final(self), effects@),
    {
        let exit = if self.previous_app_state == AppState::Downloads {
            AppState::Downloads
        } else {
            AppState::Results
        };
        let expr = match self.menus.selected_format {
            Some(i) => {
                if i < self.menus.formats.len() {
                    Some(format_expression_of(&self.menus.formats[i]))
                } else {
                    None
                }
            },
            None => None,
        };
        if let Some(format) = expr {
            if let Some(v) = &self.menus.action_video {
                let video = v.duplicate();
                match self.menus.format_mode {
                    FormatSelectionMode::Download => {
                        self.downloads.manager.add_task(&video, format.as_str());
                        self.state = exit;
                        self.status_message = message_of("Download started...");
                        self.menus.action_video = None;
                        return vec![Effect::StartDownload(video, format)];
                    },
                    FormatSelectionMode::Watch => {
                        let mut url = video.url.clone();
                        url.append("::");
                        url.append(format.as_str());
                        let effects = self.stop_playback();
                        self.pending_action = Some((AppAction::WatchExternal, url, video.title));
                        self.state = exit;
                        self.menus.action_video = None;
                        return effects;
                    },
                }
            }
        }
        self.state = exit;
        Vec::new()
    }

    /// Handles a key in the format picker (see `format_key`).
    pub fn handle_format_selection_key(&mut self, code: Key) -> (effects: Vec<Effect>)
        ensures
            format_key(*old(self), *final(self), effects@, code),
    {
        match code {
            Key::Esc | Key::Char('q') => {
                self.state = AppState::ActionMenu;
                Vec::new()
            },
            Key::Up | Key::Char('k') => {
                self.format_move(true);
                Vec::new()
            },
            Key::Down | Key::Char('j') => {
                self.format_move(false);
                Vec::new()
            },
            Key::Enter => self.format_enter(),
            _ => Vec::new(),
        }
    }
}

/// The number of entries of the download dialog: video, sound, and (for a
/// single video) the format picker.
pub open spec fn dialog_items(mode: DownloadDialogMode) -> nat {
    match mode {
        DownloadDialogMode::Single => 3,
        _ => 2,
    }
}

/// The format a dialog entry downloads in.
pub open spec fn dialog_format(index: usize) -> Seq<char> {
    if index == 0 {
        "best"@
    } else if index == 1 {
        "audio_best"@
    } else {
        ""@
    }
}

/// The results marked in the list, in the order they were marked, leaving
/// out marks past the end of the list.
pub open spec fn marked_videos(r: Results) -> Seq<Video>
    decreases r.selected_playlist_indices@.len(),
{
    marked_prefix(r.items@, r.selected_playlist_indices@)
}

/// The videos of `items` at the positions `marks` that exist.
pub open spec fn marked_prefix(items: Seq<Video>, marks: Seq<usize>) -> Seq<Video>
    decreases marks.len(),
{
    if marks.len() == 0 {
        Seq::empty()
    } else {
        let before = marked_prefix(items, marks.drop_last());
        let i = marks.last();
        if i < items.len() {
            before.push(items[i as int])
        } else {
            before
        }
    }
}

/// `after` is `before` with pending downloads of `videos` in `format_id`
/// added in order: the ids appended to the order, each video's task the
/// one of its last occurrence, other tasks unchanged.
pub open spec fn tasks_added(before: DownloadManager, after: DownloadManager, videos: Seq<Video>, format_id: Seq<char>) -> bool {
    &&& after@.1 == before@.1 + videos.map_values(|v: Video| v.id@)
    &&& forall|k: Seq<char>| #[trigger] after@.0.dom().contains(k) <==> (before@.0.dom().contains(k) || exists|j: int|
        0 <= j < videos.len() && #[trigger] videos[j].id@ == k)
    &&& forall|k: Seq<char>| (forall|j: int| 0 <= j < videos.len() ==> #[trigger] videos[j].id@ != k) ==> #[trigger] after@.0[k] == before@.0[k]
    &&& forall|j: int| 0 <= j < videos.len() && (forall|l: int| j < l < videos.len() ==> #[trigger] videos[l].id@ != videos[j].id@)
        ==> fresh_task(after@.0[#[trigger] videos[j].id@], videos[j], format_id)
}

/// The effects that start the downloads of `videos` in `format_id`, in order.
pub open spec fn downloads_started(e: Seq<Effect>, videos: Seq<Video>, format_id: Seq<char>) -> bool {
    &&& e.len() == videos.len()
    &&& forall|j: int| 0 <= j < e.len() ==> (#[trigger] e[j] matches Effect::StartDownload(v, f) && v == videos[j] && f@ == format_id)
}

/// Enter in the download dialog. For a single video: the format picker
/// entry fetches the video's formats (and waits for them); the others
/// download the video as a video or as sound and go back. For the marked
/// results, or for all results: each is downloaded and the dialog goes back
/// (with nothing marked, it only says so).
pub open spec fn dialog_entered(a: App, b: App, e: Seq<Effect>) -> bool {
    let fmt = dialog_format(a.menus.dialog_index);
    match a.menus.dialog_mode {
        DownloadDialogMode::Single => match a.menus.action_video {
            Some(v) => if a.menus.dialog_index == 2 {
                &&& b == App {
                    input_mode: InputMode::Loading,
                    status_message: b.status_message,
                    menus: Menus { format_mode: FormatSelectionMode::Download, ..a.menus },
                    ..a
                }
                &&& text_is(b.status_message, "Fetching formats..."@)
                &&& e == seq![Effect::FetchFormats(v.url)]
            } else {
                &&& task_added(a.downloads.manager, b.downloads.manager, v, fmt)
                &&& e.len() == 1 && (e[0] matches Effect::StartDownload(w, x) && w == v && x@ == fmt)
                &&& b == App {
                    downloads: Downloads { manager: b.downloads.manager, ..a.downloads },
                    state: a.previous_app_state,
                    status_message: b.status_message,
                    menus: Menus { action_video: None, ..a.menus },
                    ..a
                }
                &&& text_is(b.status_message, "Download started..."@)
            },
            None => b == a && e.len() == 0,
        },
        _ => {
            let videos = if a.menus.dialog_mode == DownloadDialogMode::BulkSelected {
                marked_videos(a.results)
            } else {
                a.results.items@
            };
            &&& tasks_added(a.downloads.manager, b.downloads.manager, videos, fmt)
            &&& downloads_started(e, videos, fmt)
            &&& b == App {
                downloads: Downloads { manager: b.downloads.manager, ..a.downloads },
                state: a.previous_app_state,
                status_message: b.status_message,
                ..a
            }
            &&& text_is(
                b.status_message,
                if a.menus.dialog_mode == DownloadDialogMode::BulkSelected && videos.len() == 0 {
                    "No videos selected."@
                } else {
                    "Starting downloads..."@
                },
            )
        },
    }
}

/// What a key does in the download dialog (others do nothing): Esc and `q`
/// go back to the action menu, `k`/`j` and the arrows move within the
/// entries, Enter takes the selected one.
pub open spec fn dialog_key(a: App, b: App, e: Seq<Effect>, code: Key) -> bool {
    match code {
        Key::Esc | Key::Char('q') => b == App { state: AppState::ActionMenu, ..a } && e.len() == 0,
        Key::Up | Key::Char('k') => e.len() == 0 && if a.menus.dialog_index > 0 {
            b == App { menus: Menus { dialog_index: (a.menus.dialog_index - 1) as usize, ..a.menus }, ..a }
        } else {
            b == a
        },
        Key::Down | Key::Char('j') => e.len() == 0 && if a.menus.dialog_index < dialog_items(a.menus.dialog_mode) - 1 {
            b == App { menus: Menus { dialog_index: (a.menus.dialog_index + 1) as usize, ..a.menus }, ..a }
        } else {
            b == a
        },
        Key::Enter => dialog_entered(a, b, e),
        _ => b == a && e.len() == 0,
    }
}

/// The marked results.
fn marked(r: &Results) -> (v: Vec<Video>)
    ensures
        v@ == marked_videos(*r),
{
    let mut v: Vec<Video> = Vec::new();
    let mut k: usize = 0;
    let marks = &r.selected_playlist_indices;
    while k < marks.len()
        invariant
            k <= marks@.len(),
            *marks == r.selected_playlist_indices,
            v@ == marked_prefix(r.items@, marks@.take(k as int)),
        decreases marks.len() - k,
    {
        assert(marks@.take(k + 1).drop_last() =~= marks@.take(k as int));
        let i = marks[k];
        if i < r.items.len() {
            v.push(r.items[i].duplicate());
        }
        k = k + 1;
    }
    assert(marks@.take(marks@.len() as int) =~= marks@);
    v
}

/// All results.
fn all_results(r: &Results) -> (v: Vec<Video>)
    ensures
        v@ == r.items@,
{
    crate::model::duplicate_videos(&r.items)
}

impl App {
    /// Adds and starts the downloads of `videos` in `format_id`.
    fn download_all(&mut self, videos: Vec<Video>, format_id: &str) -> (effects: Vec<Effect>)
        ensures
            tasks_added(old(self).downloads.manager, final(self).downloads.manager, videos@, format_id@),
            downloads_started(effects@, videos@, format_id@),
            *final(self) == (App {
                downloads: Downloads { manager: final(self).downloads.manager, ..old(self).downloads },
                ..*old(self)
            }),
    {
        let mut effects: Vec<Effect> = Vec::new();
        let mut k: usize = 0;
        while k < videos.len()
            invariant
                k <= videos@.len(),
                tasks_added(old(self).downloads.manager, self.downloads.manager, videos@.take(k as int), format_id@),
                downloads_started(effects@, videos@.take(k as int), format_id@),
                *self == (App {
                    downloads: Downloads { manager: self.downloads.manager, ..old(self).downloads },
                    ..*old(self)
                }),
            decreases videos.len() - k,
        {
            let ghost before = self.downloads.manager;
            let ghost vs = videos@.take(k as int);
            let ghost vs2 = videos@.take(k + 1);
            let v = videos[k].duplicate();
            self.downloads.manager.add_task(&v, format_id);
            effects.push(Effect::StartDownload(v, String::from_str(format_id)));
            proof {
                assert(vs2 =~= vs.push(videos@[k as int]));
                assert(vs2.map_values(|x: Video| x.id@) =~= vs.map_values(|x: Video| x.id@).push(videos@[k as int].id@));
                let m0 = old(self).downloads.manager;
                let m2 = self.downloads.manager;
                assert forall|key: Seq<char>| #[trigger] m2@.0.dom().contains(key) <==> (m0@.0.dom().contains(key)
                    || exists|j: int| 0 <= j < vs2.len() && #[trigger] vs2[j].id@ == key) by {
                    if key == videos@[k as int].id@ {
                        assert(vs2[k as int].id@ == key);
                    } else {
                        if exists|j: int| 0 <= j < vs2.len() && #[trigger] vs2[j].id@ == key {
                            let j = choose|j: int| 0 <= j < vs2.len() && #[trigger] vs2[j].id@ == key;
                            assert(vs[j].id@ == key);
                        }
                        if exists|j: int| 0 <= j < vs.len() && #[trigger] vs[j].id@ == key {
                            let j = choose|j: int| 0 <= j < vs.len() && #[trigger] vs[j].id@ == key;
                            assert(vs2[j].id@ == key);
                        }
                    }
                }
                assert forall|key: Seq<char>| (forall|j: int| 0 <= j < vs2.len() ==> #[trigger] vs2[j].id@ != key) implies #[trigger] m2@.0[key] == m0@.0[key] by {
                    assert(vs2[k as int].id@ != key);
                    assert forall|j: int| 0 <= j < vs.len() implies #[trigger] vs[j].id@ != key by {
                        assert(vs2[j] == vs[j]);
                    }
                }
                assert forall|j: int| 0 <= j < vs2.len() && (forall|l: int| j < l < vs2.len() ==> #[trigger] vs2[l].id@ != vs2[j].id@)
                    implies fresh_task(m2@.0[#[trigger] vs2[j].id@], vs2[j], format_id@) by {
                    if j < k {
                        assert(vs2[k as int].id@ != vs2[j].id@);
                        assert(vs2[j] == vs[j]);
                        assert forall|l: int| j < l < vs.len() implies #[trigger] vs[l].id@ != vs[j].id@ by {
                            assert(vs2[l] == vs[l]);
                        }
                    }
                }
                assert(effects@.len() == vs2.len());
                assert forall|j: int| 0 <= j < effects@.len() implies (#[trigger] effects@[j] matches Effect::StartDownload(v, f)
                    && v == vs2[j] && f@ == format_id@) by {
                    if j < k {
                        assert(vs2[j] == vs[j]);
                    }
                }
            }
            k = k + 1;
        }
        assert(videos@.take(videos@.len() as int) =~= videos@);
        effects
    }

    /// Enter in the download dialog (see `dialog_entered`).
    fn dialog_enter(&mut self) -> (effects: Vec<Effect>)
        ensures
            dialog_entered(*old(self), *final(self), effects@),
    {
        let index = self.menus.dialog_index;
        let format_id: &str = if index == 0 {
            "best"
        } else if index == 1 {
            "audio_best"
        } else {
            ""
        };
        match self.menus.dialog_mode {
            DownloadDialogMode::Single => {
                match &self.menus.action_video {
                    Some(v) => {
                        let video = v.duplicate();
                        if index == 2 {
                            let url = video.url.clone();
                            self.input_mode = InputMode::Loading;
                            self.status_message = message_of("Fetching formats...");
                            self.menus.format_mode = FormatSelectionMode::Download;
                            let e = vec![Effect::FetchFormats(url)];
                            assert(e@ =~= seq![Effect::FetchFormats(video.url)]);
                            e
                        } else {
                            self.downloads.manager.add_task(&video, format_id);
                            self.status_message = message_of("Download started...");
                            self.menus.action_video = None;
                            self.state = self.previous_app_state;
                            vec![Effect::StartDownload(video, String::from_str(format_id))]
                        }
                    },
                    None => Vec::new(),
                }
            },
            DownloadDialogMode::BulkSelected => {
                let videos = marked(&self.results);
                let none = videos.len() == 0;
                let effects = self.download_all(videos, format_id);
                self.status_message = if none {
                    message_of("No videos selected.")
                } else {
                    message_of("Starting downloads...")
                };
                self.state = self.previous_app_state;
                effects
            },
            DownloadDialogMode::BulkAll => {
                let videos = all_results(&self.results);
                let effects = self.download_all(videos, format_id);
                self.status_message = message_of("Starting downloads...");
                self.state = self.previous_app_state;
                effects
            },
        }
    }

    /// Handles a key in the download dialog (see `dialog_key`).
    pub fn handle_download_dialog_key(&mut self, code: Key) -> (effects: Vec<Effect>)
        ensures
            dialog_key(*old(self), *final(self), effects@, code),
    {
        match code {
            Key::Esc | Key::Char('q') => {
                self.state = AppState::ActionMenu;
                Vec::new()
            },
            Key::Up | Key::Char('k') => {
                if self.menus.dialog_index > 0 {
                    self.menus.dialog_index = self.menus.dialog_index - 1;
                }
                Vec::new()
            },
            Key::Down | Key::Char('j') => {
                let items: usize = match self.menus.dialog_mode {
                    DownloadDialogMode::Single => 3,
                    _ => 2,
                };
                if self.menus.dialog_index < items - 1 {
                    self.menus.dialog_index = self.menus.dialog_index + 1;
                }
                Vec::new()
            },
            Key::Enter => self.dialog_enter(),
            _ => Vec::new(),
        }
    }
}

} // verus!
