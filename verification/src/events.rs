//! What the reports of the workers do: search results, video details,
//! thumbnails, formats, downloads, media keys and the player.
use vstd::prelude::*;
use crate::text::{opt_text, decimal, push_decimal, str_eq};
use crate::model::{Video, VideoType, VideoFormat, DownloadTask, DownloadStatus, DownloadEvent, copy_opt};
use crate::state::{InputMode, AppState, AppAction, AfterScan, Effect};
use crate::app::{App, Results, Playback, Downloads, Menus, text_is, message, message_of, image_cached, image_request, stopped_playback, stopped, stop_effects};
use crate::player::{line_ended, set_pause_text, set_pause_command, toggle_pause_text, toggle_pause_command, quiet_seek_text, quiet_seek_command, position_request, position_request_text, duration_request, duration_request_text};
use crate::widgets::{duration_text, format_duration};
use crate::manager::without;
use crate::local::FoundTask;

verus! {

broadcast use vstd::string::group_string_axioms;

/// What the search worker reports for a search.
pub enum SearchResult {
    Video(Video),
    /// Entries received, of entries expected.
    Progress(u32, u32),
}

/// A search is complete once every expected entry arrived (or none was expected).
pub open spec fn search_complete(done: u32, of: u32) -> bool {
    of == 0 || done >= of
}

/// A report of the search `id`: reports of older searches are dropped. A
/// video is added to the results (its thumbnail asked for when it is not at
/// hand), the first one selected (with its thumbnail), and the results
/// screen shown. Progress is recorded; once the search is complete it
/// stops, says whether anything was found, and asks for the details held
/// back.
pub open spec fn search_reported(a: App, b: App, e: Seq<Effect>, id: u64, r: SearchResult) -> bool {
    if id != a.results.search_id {
        b == a && e.len() == 0
    } else {
        match r {
            SearchResult::Video(v) => {
                let fetch = if v.thumbnail_url is Some && !image_cached(a.results.cached_images@, v.id@) {
                    seq![Effect::FetchImage(v.id, v.thumbnail_url.unwrap())]
                } else {
                    Seq::empty()
                };
                let items = b.results.items;
                &&& items@ == a.results.items@.push(v)
                &&& if a.results.selected is None {
                    &&& b == App {
                        results: Results { items, selected: Some(0), ..a.results },
                        state: if a.state == AppState::Search { AppState::Results } else { a.state },
                        ..a
                    }
                    &&& e.len() >= fetch.len() && e.take(fetch.len() as int) == fetch
                    &&& image_request(b.results, e.skip(fetch.len() as int))
                } else {
                    &&& b == App {
                        results: Results { items, ..a.results },
                        state: if a.state == AppState::Search { AppState::Results } else { a.state },
                        ..a
                    }
                    &&& e == fetch
                }
            },
            SearchResult::Progress(done, of) => if search_complete(done, of) {
                &&& b == App {
                    results: Results {
                        progress: None,
                        is_searching: false,
                        pending_resolution_ids: b.results.pending_resolution_ids,
                        ..a.results
                    },
                    status_message: b.status_message,
                    ..a
                }
                &&& text_is(
                    b.status_message,
                    if a.results.items@.len() == 0 { "No results found."@ } else { "Results updated."@ },
                )
                &&& b.results.pending_resolution_ids@.len() == 0
                &&& if a.results.pending_resolution_ids@.len() > 0 {
                    e == seq![Effect::ResolveDetails(a.results.pending_resolution_ids)]
                } else {
                    e.len() == 0
                }
            } else {
                b == App { results: Results { progress: Some((done, of)), ..a.results }, ..a } && e.len() == 0
            },
        }
    }
}

impl App {
    /// Takes a report of the search `id` (see `search_reported`).
    pub fn on_search_result(&mut self, id: u64, r: SearchResult) -> (effects: Vec<Effect>)
        ensures
            search_reported(*old(self), *final(self), effects@, id, r),
    {
        if id != self.results.search_id {
            return Vec::new();
        }
        match r {
            SearchResult::Video(v) => {
                let mut effects: Vec<Effect> = Vec::new();
                if let Some(url) = &v.thumbnail_url {
                    if !self.results.has_image(v.id.as_str()) {
                        effects.push(Effect::FetchImage(v.id.clone(), url.clone()));
                    }
                }
                let ghost fetch = effects@;
                self.results.items.push(v);
                if self.results.selected.is_none() {
                    self.results.selected = Some(0);
                    let mut more = self.results.request_image_for_selection();
                    let ghost m = more@;
                    effects.append(&mut more);
                    assert(effects@.take(fetch.len() as int) =~= fetch);
                    assert(effects@.skip(fetch.len() as int) =~= m);
                }
                if self.state == AppState::Search {
                    self.state = AppState::Results;
                }
                effects
            },
            SearchResult::Progress(done, of) => {
                if of == 0 || done >= of {
                    self.results.is_searching = false;
                    self.results.progress = None;
                    self.status_message = if self.results.items.len() == 0 {
                        message_of("No results found.")
                    } else {
                        message_of("Results updated.")
                    };
                    if self.results.pending_resolution_ids.len() > 0 {
                        let mut ids: Vec<String> = Vec::new();
                        std::mem::swap(&mut ids, &mut self.results.pending_resolution_ids);
                        let e = vec![Effect::ResolveDetails(ids)];
                        assert(e@ =~= seq![Effect::ResolveDetails(old(self).results.pending_resolution_ids)]);
                        e
                    } else {
                        Vec::new()
                    }
                } else {
                    self.results.progress = Some((done, of));
                    Vec::new()
                }
            },
        }
    }

    /// A search that failed: it stops, and the status line gives the error.
    pub fn on_search_error(&mut self, error: &str)
        ensures
            *final(self) == (App {
                results: Results { is_searching: false, progress: None, ..old(self).results },
                status_message: final(self).status_message,
                ..*old(self)
            }),
            text_is(final(self).status_message, "Error: "@ + error@),
    {
        self.results.is_searching = false;
        self.results.progress = None;
        self.status_message = message("Error: ", error);
    }
}

/// Whether `s` holds the text `t`.
pub open spec fn has_text(s: Seq<String>, t: Seq<char>) -> bool {
    exists|k: int| 0 <= k < s.len() && #[trigger] s[k]@ == t
}

/// The selected result, when it is a video known only from the search
/// list whose details were not asked for yet.
pub open spec fn details_needed(r: Results) -> Option<Video> {
    match r.selected {
        Some(i) => if i < r.items@.len() && r.items@[i as int].is_partial && r.items@[i as int].video_type
            == VideoType::Video && !has_text(r.pending_resolution_ids@, r.items@[i as int].url@) {
            Some(r.items@[i as int])
        } else {
            None
        },
        None => None,
    }
}

/// `s` without the texts equal to `t`.
pub open spec fn texts_without(s: Seq<String>, t: Seq<char>) -> Seq<String>
    decreases s.len(),
{
    if s.len() == 0 {
        s
    } else if s.last()@ == t {
        texts_without(s.drop_last(), t)
    } else {
        texts_without(s.drop_last(), t).push(s.last())
    }
}

/// The position of the first result with the id `id`.
pub open spec fn first_with_id(items: Seq<Video>, id: Seq<char>) -> Option<int> {
    if exists|i: int| 0 <= i < items.len() && #[trigger] items[i].id@ == id {
        Some(choose|i: int| 0 <= i < items.len() && #[trigger] items[i].id@ == id && forall|j: int| 0 <= j < i ==> items[j].id@ != id)
    } else {
        None
    }
}

/// The full record of a video arrived: it replaces the first result of its
/// id, its address leaves the list of details asked for, and the selected
/// result's thumbnail is asked for when needed.
pub open spec fn details_arrived(a: App, b: App, e: Seq<Effect>, v: Video) -> bool {
    let items = match first_with_id(a.results.items@, v.id@) {
        Some(i) => a.results.items@.update(i, v),
        None => a.results.items@,
    };
    &&& b == App {
        results: Results {
            items: b.results.items,
            pending_resolution_ids: b.results.pending_resolution_ids,
            ..a.results
        },
        ..a
    }
    &&& b.results.items@ == items
    &&& b.results.pending_resolution_ids@ == texts_without(a.results.pending_resolution_ids@, v.url@)
    &&& image_request(b.results, e)
}

impl Results {
    /// Whether the details of `url` were asked for.
    fn details_pending(&self, url: &str) -> (b: bool)
        ensures
            b == has_text(self.pending_resolution_ids@, url@),
    {
        let mut k: usize = 0;
        while k < self.pending_resolution_ids.len()
            invariant
                k <= self.pending_resolution_ids@.len(),
                forall|j: int| 0 <= j < k ==> self.pending_resolution_ids@[j]@ != url@,
            decreases self.pending_resolution_ids.len() - k,
        {
            if str_eq(self.pending_resolution_ids[k].as_str(), url) {
                return true;
            }
            k = k + 1;
        }
        false
    }
}

impl App {
    /// Asks for the details of the selected result when needed (see
    /// `details_needed`): its address is noted as asked for.
    pub fn resolve_selected_details(&mut self) -> (effects: Vec<Effect>)
        ensures
            match details_needed(old(self).results) {
                Some(v) => {
                    &&& *final(self) == App {
                        results: Results {
                            pending_resolution_ids: final(self).results.pending_resolution_ids,
                            ..old(self).results
                        },
                        ..*old(self)
                    }
                    &&& final(self).results.pending_resolution_ids@ == old(self).results.pending_resolution_ids@.push(v.url)
                    &&& effects@.len() == 1 && (effects@[0] matches Effect::ResolveDetails(ids) && ids@ == seq![v.url])
                },
                None => *final(self) == *old(self) && effects@.len() == 0,
            },
    {
        if let Some(i) = self.results.selected {
            if i < self.results.items.len() {
                let v = &self.results.items[i];
                if v.is_partial && v.video_type == VideoType::Video && !self.results.details_pending(v.url.as_str()) {
                    let url = v.url.clone();
                    self.results.pending_resolution_ids.push(url.clone());
                    let mut ids: Vec<String> = Vec::new();
                    ids.push(url);
                    assert(ids@ =~= seq![old(self).results.items@[i as int].url]);
                    return vec![Effect::ResolveDetails(ids)];
                }
            }
        }
        Vec::new()
    }

    /// Takes the full record of a video (see `details_arrived`).
    pub fn on_details(&mut self, v: Video) -> (effects: Vec<Effect>)
        ensures
            details_arrived(*old(self), *final(self), effects@, v),
    {
        let ghost items0 = self.results.items@;
        let url = v.url.clone();
        let mut k: usize = 0;
        while k < self.results.items.len()
            invariant
                k <= self.results.items@.len(),
                self.results.items@ == items0,
                forall|j: int| 0 <= j < k ==> items0[j].id@ != v.id@,
            ensures
                k <= items0.len(),
                forall|j: int| 0 <= j < k ==> items0[j].id@ != v.id@,
                k < items0.len() ==> items0[k as int].id@ == v.id@,
            decreases self.results.items.len() - k,
        {
            if str_eq(self.results.items[k].id.as_str(), v.id.as_str()) {
                break;
            }
            k = k + 1;
        }
        proof {
            if k < items0.len() {
                assert(first_with_id(items0, v.id@) == Some(k as int)) by {
                    assert(items0[k as int].id@ == v.id@);
                    let w = choose|w: int| 0 <= w < items0.len() && #[trigger] items0[w].id@ == v.id@ && forall|j: int| 0 <= j < w ==> items0[j].id@ != v.id@;
                    if w < k {
                        assert(items0[w].id@ != v.id@);
                    } else if w > k {
                        assert(items0[k as int].id@ != v.id@);
                    }
                }
            } else {
                assert(first_with_id(items0, v.id@) is None);
            }
        }
        if k < self.results.items.len() {
            let mut items: Vec<Video> = Vec::new();
            std::mem::swap(&mut items, &mut self.results.items);
            items.set(k, v);
            self.results.items = items;
        }
        let ghost ids0 = self.results.pending_resolution_ids@;
        let mut kept: Vec<String> = Vec::new();
        let mut j: usize = 0;
        while j < self.results.pending_resolution_ids.len()
            invariant
                j <= ids0.len(),
                self.results.pending_resolution_ids@ == ids0,
                kept@ == texts_without(ids0.take(j as int), url@),
            decreases self.results.pending_resolution_ids.len() - j,
        {
            assert(ids0.take(j + 1).drop_last() =~= ids0.take(j as int));
            if !str_eq(self.results.pending_resolution_ids[j].as_str(), url.as_str()) {
                kept.push(self.results.pending_resolution_ids[j].clone());
            }
            j = j + 1;
        }
        assert(ids0.take(ids0.len() as int) =~= ids0);
        self.results.pending_resolution_ids = kept;
        self.results.request_image_for_selection()
    }

    /// A video's details could not be had: the status line says why.
    pub fn on_details_error(&mut self, error: &str)
        ensures
            *final(self) == (App { status_message: final(self).status_message, ..*old(self) }),
            text_is(final(self).status_message, "Details error: "@ + error@),
    {
        self.status_message = message("Details error: ", error);
    }

    /// The thumbnail of the video `id` is at hand.
    pub fn on_image(&mut self, id: String)
        ensures
            image_cached(old(self).results.cached_images@, id@) ==> *final(self) == *old(self),
            !image_cached(old(self).results.cached_images@, id@) ==> *final(self) == (App {
                results: Results { cached_images: final(self).results.cached_images, ..old(self).results },
                ..*old(self)
            }) && final(self).results.cached_images@ == old(self).results.cached_images@.push(id),
    {
        if !self.results.has_image(id.as_str()) {
            self.results.cached_images.push(id);
        }
    }

    /// The formats of the menu's video arrived: they are listed (the first
    /// selected), and the picker opens when it was waited for.
    pub fn on_formats(&mut self, formats: Vec<VideoFormat>)
        ensures
            *final(self) == (App {
                menus: Menus {
                    formats: formats,
                    selected_format: if formats@.len() > 0 { Some(0) } else { old(self).menus.selected_format },
                    ..old(self).menus
                },
                input_mode: if old(self).input_mode == InputMode::Loading { InputMode::Normal } else { old(self).input_mode },
                state: if old(self).input_mode == InputMode::Loading { AppState::FormatSelection } else { old(self).state },
                ..*old(self)
            }),
    {
        let n = formats.len();
        self.menus.formats = formats;
        if n > 0 {
            self.menus.selected_format = Some(0);
        }
        if self.input_mode == InputMode::Loading {
            self.input_mode = InputMode::Normal;
            self.state = AppState::FormatSelection;
        }
    }

    /// The formats could not be had: waiting stops and the status line
    /// gives the error.
    pub fn on_formats_error(&mut self, error: &str)
        ensures
            *final(self) == (App {
                input_mode: InputMode::Normal,
                status_message: final(self).status_message,
                ..*old(self)
            }),
            text_is(final(self).status_message, "Error fetching formats: "@ + error@),
    {
        self.input_mode = InputMode::Normal;
        self.status_message = message("Error fetching formats: ", error);
    }
}

} // verus!
