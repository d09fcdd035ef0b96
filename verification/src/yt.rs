//! Talking to `yt-dlp`: the arguments of a search, and how the JSON lines it
//! prints become videos.
use vstd::prelude::*;
use crate::text::{
    contains, starts_with, occurs_at, decimal, opt_text, str_contains, str_starts_with, str_eq, opt_is,
    push_decimal, trim, chars_of, trimmed,
};
use crate::model::{Video, VideoType, VideoView};
use crate::events::SearchResult;
use crate::widgets::{duration_text, format_duration};
use crate::json::{
    json_text_of, json_count_of, json_flag_of, json_whole_of, json_last_url_of, json_parses,
    json_str, json_u64, json_bool, json_whole, json_last_url, json_is_document,
};

verus! {

broadcast use vstd::string::group_string_axioms;

/// A query that is a web address rather than search words.
pub open spec fn is_url_query(q: Seq<char>) -> bool {
    starts_with(q, "http://"@) || starts_with(q, "https://"@)
}

/// Text that holds one of the prefixes of YouTube's playlist identifiers.
pub open spec fn has_playlist_code(q: Seq<char>) -> bool {
    ||| contains(q, "PL"@)
    ||| contains(q, "UU"@)
    ||| contains(q, "FL"@)
    ||| contains(q, "RD"@)
    ||| contains(q, "OL"@)
}

/// Whether the search worker lists the query as a playlist: it names a list,
/// or it is a YouTube address holding a playlist identifier.
pub open spec fn lists_playlist(q: Seq<char>) -> bool {
    ||| contains(q, "list="@)
    ||| contains(q, "/playlist/"@)
    ||| (is_url_query(q) && contains(q, "youtube.com"@) && has_playlist_code(q))
}

/// What `yt-dlp` is pointed at: the address itself, or YouTube's result
/// page for the search words.
pub open spec fn search_target(q: Seq<char>) -> Seq<char> {
    if is_url_query(q) {
        q
    } else {
        "https://www.youtube.com/results?search_query="@ + q
    }
}

/// The arguments `yt-dlp` gets for the entries `start` to `end` of a query:
/// a playlist address is listed flat and lazily within the range, a single
/// address is read in full, and search words are listed flat within the range.
pub open spec fn search_arg_list(q: Seq<char>, start: nat, end: nat) -> Seq<Seq<char>> {
    if is_url_query(q) && lists_playlist(q) {
        seq![
            "--dump-json"@,
            "--flat-playlist"@,
            "--lazy-playlist"@,
            "--no-check-formats"@,
            "--ignore-errors"@,
            "--no-warnings"@,
            "--playlist-start"@,
            decimal(start),
            "--playlist-end"@,
            decimal(end),
            search_target(q),
        ]
    } else if is_url_query(q) {
        seq![
            "--dump-json"@,
            "--no-check-formats"@,
            "--ignore-errors"@,
            "--no-warnings"@,
            search_target(q),
        ]
    } else {
        seq![
            "--dump-json"@,
            "--flat-playlist"@,
            "--no-check-formats"@,
            "--ignore-errors"@,
            "--no-warnings"@,
            "--playlist-start"@,
            decimal(start),
            "--playlist-end"@,
            decimal(end),
            search_target(q),
        ]
    }
}

/// The texts of a list of strings.
pub open spec fn texts(v: Seq<String>) -> Seq<Seq<char>> {
    v.map_values(|s: String| s@)
}

/// Whether `query` is a web address.
pub fn is_url(query: &str) -> (b: bool)
    ensures
        b == is_url_query(query@),
{
    str_starts_with(query, "http://") || str_starts_with(query, "https://")
}

/// Whether `query` holds a playlist identifier prefix.
pub fn playlist_code_in(query: &str) -> (b: bool)
    ensures
        b == has_playlist_code(query@),
{
    str_contains(query, "PL") || str_contains(query, "UU") || str_contains(query, "FL")
        || str_contains(query, "RD") || str_contains(query, "OL")
}

/// Whether the search worker lists `query` as a playlist.
pub fn is_direct_playlist(query: &str) -> (b: bool)
    ensures
        b == lists_playlist(query@),
{
    str_contains(query, "list=") || str_contains(query, "/playlist/") || (is_url(query)
        && str_contains(query, "youtube.com") && playlist_code_in(query))
}

/// The decimal notation of `n`.
fn decimal_string(n: u32) -> (s: String)
    ensures
        s@ == decimal(n as nat),
{
    let mut s = String::new();
    push_decimal(&mut s, n as u64);
    assert(Seq::<char>::empty() + decimal(n as nat) =~= decimal(n as nat));
    s
}

/// The arguments of a `yt-dlp` search for the entries `start` to `end` of `query`.
pub fn search_args(query: &str, start: u32, end: u32) -> (args: Vec<String>)
    ensures
        texts(args@) == search_arg_list(query@, start as nat, end as nat),
{
    let url = is_url(query);
    let target = if url {
        String::from_str(query)
    } else {
        let mut t = String::from_str("https://www.youtube.com/results?search_query=");
        t.append(query);
        t
    };
    let mut v: Vec<String> = Vec::new();
    v.push(String::from_str("--dump-json"));
    if url && is_direct_playlist(query) {
        v.push(String::from_str("--flat-playlist"));
        v.push(String::from_str("--lazy-playlist"));
    } else if !url {
        v.push(String::from_str("--flat-playlist"));
    }
    v.push(String::from_str("--no-check-formats"));
    v.push(String::from_str("--ignore-errors"));
    v.push(String::from_str("--no-warnings"));
    if !url || is_direct_playlist(query) {
        v.push(String::from_str("--playlist-start"));
        v.push(decimal_string(start));
        v.push(String::from_str("--playlist-end"));
        v.push(decimal_string(end));
    }
    v.push(target);
    assert(texts(v@) =~= search_arg_list(query@, start as nat, end as nat));
    v
}

/// `n` reduced to a `u32` the way wrapping arithmetic does.
pub open spec fn wrap32(n: int) -> u32 {
    (n % 0x1_0000_0000) as u32
}

/// `n` reduced to a `u64` the way wrapping arithmetic does.
pub open spec fn wrap64(n: int) -> u64 {
    (n % 0x1_0000_0000_0000_0000) as u64
}

/// How many entries a search expects: one for a single address fetched
/// alone, else the size of the range (in `u32` arithmetic, which wraps).
pub open spec fn expected_count(q: Seq<char>, start: nat, end: nat) -> u32 {
    if is_url_query(q) && end == 1 {
        1
    } else {
        wrap32(end - start + 1)
    }
}

/// The number of entries a search of `start` to `end` expects, against which
/// its progress is measured.
pub fn expected_results(query: &str, start: u32, end: u32) -> (n: u32)
    ensures
        n == expected_count(query@, start as nat, end as nat),
{
    if is_url(query) && end == 1 {
        1
    } else {
        let n = end.wrapping_sub(start).wrapping_add(1);
        assert(n == wrap32(end - start + 1)) by {
            assert(0x1_0000_0000 == u32::MAX + 1);
        }
        n
    }
}


/// The members of one `yt-dlp` JSON line that the library reads.
pub struct SearchEntry {
    pub title: Option<String>,
    pub id: Option<String>,
    pub webpage_url: Option<String>,
    pub url: Option<String>,
    pub original_url: Option<String>,
    pub uploader: Option<String>,
    pub uploader_id: Option<String>,
    pub webpage_url_domain: Option<String>,
    pub channel_id: Option<String>,
    pub item_type: Option<String>,
    pub ie_key: Option<String>,
    pub playlist_id: Option<String>,
    pub playlist_count: Option<u64>,
    pub n_entries: Option<u64>,
    /// The length in whole seconds.
    pub duration: Option<u64>,
    pub view_count: Option<u64>,
    pub concurrent_view_count: Option<u64>,
    pub live_status: Option<String>,
    pub is_live: Option<bool>,
    /// The `url` of the last of the `playlist_thumbnails`.
    pub playlist_thumbnail: Option<String>,
    /// The `url` of the last of the `thumbnails`.
    pub last_thumbnail: Option<String>,
    pub thumbnail: Option<String>,
    pub upload_date: Option<String>,
    pub playlist_webpage_url: Option<String>,
    pub playlist_title: Option<String>,
}

/// The members of a JSON line, texts as character sequences.
pub ghost struct EntryView {
    pub title: Option<Seq<char>>,
    pub id: Option<Seq<char>>,
    pub webpage_url: Option<Seq<char>>,
    pub url: Option<Seq<char>>,
    pub original_url: Option<Seq<char>>,
    pub uploader: Option<Seq<char>>,
    pub uploader_id: Option<Seq<char>>,
    pub webpage_url_domain: Option<Seq<char>>,
    pub channel_id: Option<Seq<char>>,
    pub item_type: Option<Seq<char>>,
    pub ie_key: Option<Seq<char>>,
    pub playlist_id: Option<Seq<char>>,
    pub playlist_count: Option<u64>,
    pub n_entries: Option<u64>,
    pub duration: Option<u64>,
    pub view_count: Option<u64>,
    pub concurrent_view_count: Option<u64>,
    pub live_status: Option<Seq<char>>,
    pub is_live: Option<bool>,
    pub playlist_thumbnail: Option<Seq<char>>,
    pub last_thumbnail: Option<Seq<char>>,
    pub thumbnail: Option<Seq<char>>,
    pub upload_date: Option<Seq<char>>,
    pub playlist_webpage_url: Option<Seq<char>>,
    pub playlist_title: Option<Seq<char>>,
}

impl View for SearchEntry {
    type V = EntryView;

    open spec fn view(&self) -> EntryView {
        EntryView {
            title: opt_text(self.title),
            id: opt_text(self.id),
            webpage_url: opt_text(self.webpage_url),
            url: opt_text(self.url),
            original_url: opt_text(self.original_url),
            uploader: opt_text(self.uploader),
            uploader_id: opt_text(self.uploader_id),
            webpage_url_domain: opt_text(self.webpage_url_domain),
            channel_id: opt_text(self.channel_id),
            item_type: opt_text(self.item_type),
            ie_key: opt_text(self.ie_key),
            playlist_id: opt_text(self.playlist_id),
            playlist_count: self.playlist_count,
            n_entries: self.n_entries,
            duration: self.duration,
            view_count: self.view_count,
            concurrent_view_count: self.concurrent_view_count,
            live_status: opt_text(self.live_status),
            is_live: self.is_live,
            playlist_thumbnail: opt_text(self.playlist_thumbnail),
            last_thumbnail: opt_text(self.last_thumbnail),
            thumbnail: opt_text(self.thumbnail),
            upload_date: opt_text(self.upload_date),
            playlist_webpage_url: opt_text(self.playlist_webpage_url),
            playlist_title: opt_text(self.playlist_title),
        }
    }
}

/// The members of the JSON document `doc`, as `serde_json` reads them.
pub open spec fn entry_of(doc: Seq<char>) -> EntryView {
    EntryView {
        title: json_text_of(doc, "title"@),
        id: json_text_of(doc, "id"@),
        webpage_url: json_text_of(doc, "webpage_url"@),
        url: json_text_of(doc, "url"@),
        original_url: json_text_of(doc, "original_url"@),
        uploader: json_text_of(doc, "uploader"@),
        uploader_id: json_text_of(doc, "uploader_id"@),
        webpage_url_domain: json_text_of(doc, "webpage_url_domain"@),
        channel_id: json_text_of(doc, "channel_id"@),
        item_type: json_text_of(doc, "_type"@),
        ie_key: json_text_of(doc, "ie_key"@),
        playlist_id: json_text_of(doc, "playlist_id"@),
        playlist_count: json_count_of(doc, "playlist_count"@),
        n_entries: json_count_of(doc, "n_entries"@),
        duration: json_whole_of(doc, "duration"@),
        view_count: json_count_of(doc, "view_count"@),
        concurrent_view_count: json_count_of(doc, "concurrent_view_count"@),
        live_status: json_text_of(doc, "live_status"@),
        is_live: json_flag_of(doc, "is_live"@),
        playlist_thumbnail: json_last_url_of(doc, "playlist_thumbnails"@),
        last_thumbnail: json_last_url_of(doc, "thumbnails"@),
        thumbnail: json_text_of(doc, "thumbnail"@),
        upload_date: json_text_of(doc, "upload_date"@),
        playlist_webpage_url: json_text_of(doc, "playlist_webpage_url"@),
        playlist_title: json_text_of(doc, "playlist_title"@),
    }
}

/// Reads the members the library uses from the JSON document `doc`.
pub fn read_entry(doc: &str) -> (e: SearchEntry)
    ensures
        e@ == entry_of(doc@),
{
    SearchEntry {
        title: json_str(doc, "title"),
        id: json_str(doc, "id"),
        webpage_url: json_str(doc, "webpage_url"),
        url: json_str(doc, "url"),
        original_url: json_str(doc, "original_url"),
        uploader: json_str(doc, "uploader"),
        uploader_id: json_str(doc, "uploader_id"),
        webpage_url_domain: json_str(doc, "webpage_url_domain"),
        channel_id: json_str(doc, "channel_id"),
        item_type: json_str(doc, "_type"),
        ie_key: json_str(doc, "ie_key"),
        playlist_id: json_str(doc, "playlist_id"),
        playlist_count: json_u64(doc, "playlist_count"),
        n_entries: json_u64(doc, "n_entries"),
        duration: json_whole(doc, "duration"),
        view_count: json_u64(doc, "view_count"),
        concurrent_view_count: json_u64(doc, "concurrent_view_count"),
        live_status: json_str(doc, "live_status"),
        is_live: json_bool(doc, "is_live"),
        playlist_thumbnail: json_last_url(doc, "playlist_thumbnails"),
        last_thumbnail: json_last_url(doc, "thumbnails"),
        thumbnail: json_str(doc, "thumbnail"),
        upload_date: json_str(doc, "upload_date"),
        playlist_webpage_url: json_str(doc, "playlist_webpage_url"),
        playlist_title: json_str(doc, "playlist_title"),
    }
}

/// An optional text, or the empty text.
pub open spec fn or_empty(o: Option<Seq<char>>) -> Seq<char> {
    match o {
        Some(t) => t,
        None => Seq::empty(),
    }
}

/// An optional text, or `d`.
pub open spec fn or_text(o: Option<Seq<char>>, d: Seq<char>) -> Seq<char> {
    match o {
        Some(t) => t,
        None => d,
    }
}

/// The first of two optional values that is present.
pub open spec fn first_of<T>(a: Option<T>, b: Option<T>) -> Option<T> {
    if a is Some {
        a
    } else {
        b
    }
}

/// A playlist identifier of a real YouTube list (not a search page).
pub open spec fn real_playlist_id(p: Seq<char>) -> bool {
    ||| starts_with(p, "PL"@)
    ||| starts_with(p, "UU"@)
    ||| starts_with(p, "FL"@)
    ||| starts_with(p, "RD"@)
    ||| starts_with(p, "OL"@)
}

/// The canonical address of the YouTube playlist `id`.
pub open spec fn playlist_address(id: Seq<char>) -> Seq<char> {
    "https://www.youtube.com/playlist?list="@ + id
}

/// The channel shown for an entry: the uploader, else its id, else the
/// site's domain, else `Unknown`.
pub open spec fn entry_channel(e: EntryView) -> Seq<char> {
    or_text(first_of(first_of(e.uploader, e.uploader_id), e.webpage_url_domain), "Unknown"@)
}

/// The address of a search entry before playlists are made canonical: the
/// page address, else the plain address, else (when both are missing) the
/// address the entry was asked for by (`original_url`).
pub open spec fn entry_address(e: EntryView) -> Seq<char> {
    let u = or_empty(first_of(e.webpage_url, e.url));
    if u.len() == 0 && e.original_url is Some {
        e.original_url.unwrap()
    } else {
        u
    }
}

/// What a search entry stands for.
pub open spec fn entry_kind(e: EntryView, address: Seq<char>) -> VideoType {
    let t = or_text(e.item_type, "video"@);
    if t == "playlist"@ || t == "multi_video"@ {
        VideoType::Playlist
    } else if t == "channel"@ {
        VideoType::Channel
    } else if (t == "url"@ || t == "url_transparent"@) && e.ie_key == Some("YoutubeTab"@) && (
    contains(address, "list="@) || contains(address, "/playlist/"@)) {
        VideoType::Playlist
    } else {
        VideoType::Video
    }
}

/// The number of videos a playlist entry reports.
pub open spec fn entry_playlist_count(e: EntryView) -> Option<u64> {
    first_of(e.playlist_count, e.n_entries)
}

/// The number of whole units in an optional count, 0 when missing.
pub open spec fn count_or_zero(c: Option<u64>) -> nat {
    match c {
        Some(n) => n as nat,
        None => 0,
    }
}

/// The duration column of an entry of the given kind.
pub open spec fn entry_duration_text(e: EntryView, kind: VideoType) -> Seq<char> {
    match kind {
        VideoType::Playlist => decimal(count_or_zero(entry_playlist_count(e))) + " videos"@,
        VideoType::Channel => "N/A"@,
        VideoType::Video => duration_text(count_or_zero(e.duration)),
    }
}

/// The thumbnail of an entry of the given kind: for a playlist its own
/// thumbnails first; for a video the thumbnail list, the single thumbnail,
/// the entry's address, and at last YouTube's picture for the id.
pub open spec fn entry_thumbnail(e: EntryView, kind: VideoType) -> Option<Seq<char>> {
    if kind == VideoType::Playlist {
        first_of(first_of(e.playlist_thumbnail, e.last_thumbnail), e.thumbnail)
    } else {
        first_of(
            first_of(first_of(e.last_thumbnail, e.thumbnail), e.url),
            Some("https://i.ytimg.com/vi/"@ + or_empty(e.id) + "/hqdefault.jpg"@),
        )
    }
}

/// The address of a playlist entry: the canonical playlist address for a
/// real list, else the list's page unless it is a search page.
pub open spec fn entry_final_address(e: EntryView, kind: VideoType, address: Seq<char>) -> Seq<char> {
    let pid = or_empty(e.playlist_id);
    if kind != VideoType::Playlist {
        address
    } else if real_playlist_id(pid) {
        playlist_address(pid)
    } else if e.playlist_webpage_url is Some && !contains(
        e.playlist_webpage_url.unwrap(),
        "results?search_query"@,
    ) {
        e.playlist_webpage_url.unwrap()
    } else {
        address
    }
}

/// Whether an entry is one the search leaves out: private, deleted or
/// untitled, without id or address, upcoming, or (for search words, not an
/// address) live when live streams are hidden or a playlist when playlists are.
pub open spec fn entry_skipped(e: EntryView, is_url: bool, show_live: bool, show_playlists: bool) -> bool {
    let title = or_empty(e.title);
    let id = or_empty(e.id);
    let address = entry_address(e);
    let kind = entry_kind(e, address);
    let live = e.live_status == Some("is_live"@) || e.is_live == Some(true);
    ||| title == "[Private video]"@
    ||| title == "[Deleted video]"@
    ||| title.len() == 0
    ||| id.len() == 0
    ||| address.len() == 0
    ||| e.live_status == Some("is_upcoming"@)
    ||| (!is_url && !show_live && live)
    ||| (!is_url && !show_playlists && kind == VideoType::Playlist)
}

/// The video a search entry gives, when it is not left out.
pub open spec fn search_entry_video(e: EntryView, is_url: bool, show_live: bool, show_playlists: bool) -> Option<VideoView> {
    if entry_skipped(e, is_url, show_live, show_playlists) {
        None
    } else {
        let address = entry_address(e);
        let kind = entry_kind(e, address);
        let pid = or_empty(e.playlist_id);
        let parent = kind == VideoType::Video && real_playlist_id(pid);
        Some(VideoView {
            id: or_empty(e.id),
            title: or_empty(e.title),
            channel: entry_channel(e),
            channel_id: or_empty(e.channel_id),
            url: entry_final_address(e, kind, address),
            duration_string: entry_duration_text(e, kind),
            thumbnail_url: entry_thumbnail(e, kind),
            view_count: if kind == VideoType::Video { e.view_count } else { None },
            concurrent_view_count: if kind == VideoType::Video { e.concurrent_view_count } else { None },
            upload_date: e.upload_date,
            playlist_count: if kind == VideoType::Playlist { entry_playlist_count(e) } else { None },
            live_status: e.live_status,
            is_partial: true,
            video_type: kind,
            parent_playlist_id: if parent { Some(pid) } else { None },
            parent_playlist_url: if parent { Some(playlist_address(pid)) } else { None },
            parent_playlist_title: if parent { e.playlist_title } else { None },
        })
    }
}

/// A search entry that refers to a YouTube list (`_type` `url` or
/// `url_transparent`, `ie_key` `YoutubeTab`, and an address holding
/// `list=` or `/playlist/`) is read as a playlist whose duration column
/// counts its videos (`playlist_count`, else `n_entries`, else 0); a word
/// search leaves it out while playlists are hidden, and lists a usable one
/// while they are shown.
pub proof fn law_list_reference_is_playlist(
    e: EntryView,
    is_url: bool,
    show_live: bool,
    show_playlists: bool,
    address: Seq<char>,
)
    requires
        e.item_type == Some("url"@) || e.item_type == Some("url_transparent"@),
        e.ie_key == Some("YoutubeTab"@),
        e.webpage_url == Some(address) || (e.webpage_url is None && e.url == Some(address)),
        contains(address, "list="@) || contains(address, "/playlist/"@),
    ensures
        !is_url && !show_playlists ==> search_entry_video(e, is_url, show_live, show_playlists) is None,
        search_entry_video(e, is_url, show_live, show_playlists) matches Some(v) ==> {
            &&& v.video_type == VideoType::Playlist
            &&& v.duration_string == decimal(
                match e.playlist_count {
                    Some(n) => n as nat,
                    None => match e.n_entries {
                        Some(n) => n as nat,
                        None => 0,
                    },
                },
            ) + " videos"@
        },
        (is_url || show_playlists) && e.live_status is None && e.is_live is None ==> ((e.title matches Some(t)
            && t.len() > 0 && t != "[Private video]"@ && t != "[Deleted video]"@) ==> ((e.id matches Some(i) && i.len()
            > 0) ==> search_entry_video(e, is_url, show_live, show_playlists) is Some)),
{
    reveal_strlit("url");
    reveal_strlit("url_transparent");
    reveal_strlit("playlist");
    reveal_strlit("multi_video");
    reveal_strlit("channel");
    reveal_strlit("video");
    reveal_strlit("list=");
    reveal_strlit("/playlist/");
    let i: int = if contains(address, "list="@) {
        choose|i: int| occurs_at(address, "list="@, i)
    } else {
        choose|i: int| occurs_at(address, "/playlist/"@, i)
    };
    assert(address.len() > 0);
    assert(entry_address(e) == address);
    let t = or_text(e.item_type, "video"@);
    assert(t == "url"@ || t == "url_transparent"@);
    assert(t != "playlist"@ && t != "multi_video"@ && t != "channel"@) by {
        assert(t.len() == 3 || t.len() == 15);
    }
    assert(entry_kind(e, address) == VideoType::Playlist);
}

/// What a search keeps and how it reads what it keeps: entries that are
/// private, deleted, untitled, without id or upcoming are left out, and so
/// are live streams in a word search while live streams are hidden; a kept
/// entry keeps its id and title, and is a playlist for `_type` `playlist`
/// or `multi_video`, a channel for `channel`, and a video for `video` or no
/// `_type`.
pub proof fn law_search_entry_reading(e: EntryView, is_url: bool, show_live: bool, show_playlists: bool)
    ensures
        ({
            let r = search_entry_video(e, is_url, show_live, show_playlists);
            &&& e.title == Some("[Private video]"@) || e.title == Some("[Deleted video]"@) ==> r is None
            &&& e.title is None || e.title == Some(Seq::<char>::empty()) ==> r is None
            &&& e.id is None || e.id == Some(Seq::<char>::empty()) ==> r is None
            &&& e.live_status == Some("is_upcoming"@) ==> r is None
            &&& !is_url && !show_live && (e.live_status == Some("is_live"@) || e.is_live == Some(true)) ==> r is None
            &&& r matches Some(v) ==> {
                &&& Some(v.id) == e.id && Some(v.title) == e.title
                &&& (e.item_type == Some("playlist"@) || e.item_type == Some("multi_video"@)) ==> v.video_type
                    == VideoType::Playlist
                &&& e.item_type == Some("channel"@) ==> v.video_type == VideoType::Channel
                &&& (e.item_type is None || e.item_type == Some("video"@)) ==> v.video_type == VideoType::Video
                &&& v.video_type == VideoType::Playlist && (e.playlist_id matches Some(p) && (starts_with(p, "PL"@)
                    || starts_with(p, "UU"@) || starts_with(p, "FL"@) || starts_with(p, "RD"@) || starts_with(
                    p,
                    "OL"@,
                ))) ==> v.url == "https://www.youtube.com/playlist?list="@ + e.playlist_id.unwrap()
                &&& v.video_type == VideoType::Video ==> v.duration_string == duration_text(
                    match e.duration {
                        Some(n) => n as nat,
                        None => 0,
                    },
                )
            }
        }),
{
    reveal_strlit("playlist");
    reveal_strlit("multi_video");
    reveal_strlit("channel");
    reveal_strlit("video");
    reveal_strlit("url");
    reveal_strlit("url_transparent");
    assert("playlist"@.len() == 8 && "multi_video"@.len() == 11 && "channel"@.len() == 7 && "video"@.len() == 5
        && "url"@.len() == 3 && "url_transparent"@.len() == 15);
    assert("channel"@ != "video"@);
}

/// The view of an optional video.
pub open spec fn opt_video(v: Option<Video>) -> Option<VideoView> {
    match v {
        Some(x) => Some(x@),
        None => None,
    }
}

/// A copy of an optional string.
fn copy_text(o: &Option<String>) -> (r: Option<String>)
    ensures
        opt_text(r) == opt_text(*o),
{
    match o {
        Some(s) => Some(s.clone()),
        None => None,
    }
}

/// The text of an optional string, or the empty string.
fn text_or_empty(o: &Option<String>) -> (r: String)
    ensures
        r@ == or_empty(opt_text(*o)),
{
    match o {
        Some(s) => s.clone(),
        None => String::new(),
    }
}

/// The first present of two optional strings.
fn first_text(a: &Option<String>, b: &Option<String>) -> (r: Option<String>)
    ensures
        opt_text(r) == first_of(opt_text(*a), opt_text(*b)),
{
    if a.is_some() {
        copy_text(a)
    } else {
        copy_text(b)
    }
}

/// Whether `p` names a real YouTube playlist.
pub fn is_real_playlist_id(p: &str) -> (b: bool)
    ensures
        b == real_playlist_id(p@),
{
    str_starts_with(p, "PL") || str_starts_with(p, "UU") || str_starts_with(p, "FL")
        || str_starts_with(p, "RD") || str_starts_with(p, "OL")
}

/// The canonical address of the playlist `id`.
pub fn playlist_url(id: &str) -> (r: String)
    ensures
        r@ == playlist_address(id@),
{
    let mut r = String::from_str("https://www.youtube.com/playlist?list=");
    r.append(id);
    r
}

/// The channel shown for an entry.
fn channel_of(e: &SearchEntry) -> (r: String)
    ensures
        r@ == entry_channel(e@),
{
    let c = first_text(&first_text(&e.uploader, &e.uploader_id), &e.webpage_url_domain);
    match c {
        Some(s) => s,
        None => String::from_str("Unknown"),
    }
}

/// The address of an entry before playlists are made canonical.
fn address_of(e: &SearchEntry) -> (r: String)
    ensures
        r@ == entry_address(e@),
{
    let u = text_or_empty(&first_text(&e.webpage_url, &e.url));
    if u.as_str().is_empty() && e.original_url.is_some() {
        text_or_empty(&e.original_url)
    } else {
        u
    }
}

/// What an entry stands for.
fn kind_of(e: &SearchEntry, address: &str) -> (k: VideoType)
    ensures
        k == entry_kind(e@, address@),
{
    let t = match &e.item_type {
        Some(s) => s.clone(),
        None => String::from_str("video"),
    };
    let t = t.as_str();
    if str_eq(t, "playlist") || str_eq(t, "multi_video") {
        VideoType::Playlist
    } else if str_eq(t, "channel") {
        VideoType::Channel
    } else if (str_eq(t, "url") || str_eq(t, "url_transparent")) && opt_is(&e.ie_key, "YoutubeTab")
        && (str_contains(address, "list=") || str_contains(address, "/playlist/")) {
        VideoType::Playlist
    } else {
        VideoType::Video
    }
}

/// The duration column of an entry of kind `kind`.
fn duration_text_of(e: &SearchEntry, kind: VideoType) -> (r: String)
    ensures
        r@ == entry_duration_text(e@, kind),
{
    match kind {
        VideoType::Playlist => {
            let c = if e.playlist_count.is_some() {
                e.playlist_count
            } else {
                e.n_entries
            };
            let n: u64 = match c {
                Some(n) => n,
                None => 0,
            };
            let mut r = String::new();
            push_decimal(&mut r, n);
            r.append(" videos");
            assert(r@ =~= entry_duration_text(e@, kind));
            r
        },
        VideoType::Channel => String::from_str("N/A"),
        VideoType::Video => {
            let d: u64 = match e.duration {
                Some(n) => n,
                None => 0,
            };
            format_duration(d)
        },
    }
}

/// The thumbnail of an entry of kind `kind`.
fn thumbnail_of(e: &SearchEntry, kind: VideoType) -> (r: Option<String>)
    ensures
        opt_text(r) == entry_thumbnail(e@, kind),
{
    if kind == VideoType::Playlist {
        first_text(&first_text(&e.playlist_thumbnail, &e.last_thumbnail), &e.thumbnail)
    } else {
        let t = first_text(&first_text(&e.last_thumbnail, &e.thumbnail), &e.url);
        if t.is_some() {
            t
        } else {
            let mut u = String::from_str("https://i.ytimg.com/vi/");
            let id = text_or_empty(&e.id);
            u.append(id.as_str());
            u.append("/hqdefault.jpg");
            Some(u)
        }
    }
}

/// The final address of an entry of kind `kind`.
fn final_address_of(e: &SearchEntry, kind: VideoType, address: String) -> (r: String)
    ensures
        r@ == entry_final_address(e@, kind, address@),
{
    let pid = text_or_empty(&e.playlist_id);
    if kind != VideoType::Playlist {
        address
    } else if is_real_playlist_id(pid.as_str()) {
        playlist_url(pid.as_str())
    } else {
        match &e.playlist_webpage_url {
            Some(p) => {
                if !str_contains(p.as_str(), "results?search_query") {
                    p.clone()
                } else {
                    address
                }
            },
            None => address,
        }
    }
}

/// The video a `yt-dlp` search entry gives, or `None` when the search
/// leaves it out (see `search_entry_video`). `is_url` tells whether the
/// query was an address, whose entries the live and playlist filters spare.
pub fn video_from_search_entry(e: &SearchEntry, is_url: bool, show_live: bool, show_playlists: bool) -> (r: Option<Video>)
    ensures
        opt_video(r) == search_entry_video(e@, is_url, show_live, show_playlists),
{
    let title = text_or_empty(&e.title);
    let id = text_or_empty(&e.id);
    if str_eq(title.as_str(), "[Private video]") || str_eq(title.as_str(), "[Deleted video]")
        || title.as_str().is_empty() || id.as_str().is_empty() {
        return None;
    }
    let address = address_of(e);
    if address.as_str().is_empty() {
        return None;
    }
    let kind = kind_of(e, address.as_str());
    if opt_is(&e.live_status, "is_upcoming") {
        return None;
    }
    let is_live = match e.is_live {
        Some(b) => b,
        None => false,
    };
    if !is_url {
        if !show_live && (opt_is(&e.live_status, "is_live") || is_live) {
            return None;
        }
        if !show_playlists && kind == VideoType::Playlist {
            return None;
        }
    }
    let pid = text_or_empty(&e.playlist_id);
    let parent = kind == VideoType::Video && is_real_playlist_id(pid.as_str());
    let v = Video {
        id,
        title,
        channel: channel_of(e),
        channel_id: text_or_empty(&e.channel_id),
        url: final_address_of(e, kind, address),
        duration_string: duration_text_of(e, kind),
        thumbnail_url: thumbnail_of(e, kind),
        view_count: if kind == VideoType::Video { e.view_count } else { None },
        concurrent_view_count: if kind == VideoType::Video { e.concurrent_view_count } else { None },
        upload_date: copy_text(&e.upload_date),
        playlist_count: if kind == VideoType::Playlist {
            if e.playlist_count.is_some() { e.playlist_count } else { e.n_entries }
        } else {
            None
        },
        live_status: copy_text(&e.live_status),
        is_partial: true,
        video_type: kind,
        parent_playlist_id: if parent { Some(pid.clone()) } else { None },
        parent_playlist_url: if parent { Some(playlist_url(pid.as_str())) } else { None },
        parent_playlist_title: if parent { copy_text(&e.playlist_title) } else { None },
    };
    Some(v)
}

/// Whether a line of `yt-dlp` output is blank.
pub open spec fn blank_line(line: Seq<char>) -> bool {
    trim(line).len() == 0
}

/// Whether `line` is blank (white space only).
pub fn is_blank(line: &str) -> (b: bool)
    ensures
        b == blank_line(line@),
{
    let c = chars_of(line);
    let t = trimmed(c.as_slice());
    t.len() == 0
}

/// The video one line of `yt-dlp` search output gives: `None` for a blank
/// line, a line that is not JSON, or an entry the search leaves out.
pub fn parse_search_line(line: &str, is_url: bool, show_live: bool, show_playlists: bool) -> (r: Option<Video>)
    ensures
        opt_video(r) == (if blank_line(line@) || !json_parses(line@) {
            None
        } else {
            search_entry_video(entry_of(line@), is_url, show_live, show_playlists)
        }),
{
    if is_blank(line) || !json_is_document(line) {
        return None;
    }
    let e = read_entry(line);
    video_from_search_entry(&e, is_url, show_live, show_playlists)
}

/// What a search sends for one line of `yt-dlp` output, when `count`
/// videos came before it of `expected`: for a line that gives a video
/// (see `parse_search_line`), the video and then the progress, one more
/// video of `expected`; for any other line nothing. The count comes back
/// with the reports.
pub fn search_line_reports(
    line: &str,
    is_url: bool,
    show_live: bool,
    show_playlists: bool,
    count: u32,
    expected: u32,
) -> (r: (Vec<SearchResult>, u32))
    requires
        count < u32::MAX,
    ensures
        match (if blank_line(line@) || !json_parses(line@) {
            None
        } else {
            search_entry_video(entry_of(line@), is_url, show_live, show_playlists)
        }) {
            Some(v) => r.1 == count + 1 && r.0@.len() == 2 && (r.0@[0] matches SearchResult::Video(x) && x@ == v)
                && (r.0@[1] matches SearchResult::Progress(got, of) && got == count + 1 && of == expected),
            None => r.1 == count && r.0@.len() == 0,
        },
{
    match parse_search_line(line, is_url, show_live, show_playlists) {
        Some(video) => {
            let n = count + 1;
            let mut v: Vec<SearchResult> = Vec::new();
            v.push(SearchResult::Video(video));
            v.push(SearchResult::Progress(n, expected));
            (v, n)
        },
        None => (Vec::new(), count),
    }
}

/// The full record of a video that `yt-dlp --dump-json` prints for it.
pub open spec fn details_video(e: EntryView) -> VideoView {
    let pid = or_empty(e.playlist_id);
    let parent = real_playlist_id(pid);
    VideoView {
        id: or_empty(e.id),
        title: or_empty(e.title),
        channel: entry_channel(e),
        channel_id: or_empty(e.channel_id),
        url: or_empty(first_of(first_of(e.webpage_url, e.url), e.original_url)),
        duration_string: duration_text(count_or_zero(e.duration)),
        thumbnail_url: e.thumbnail,
        view_count: e.view_count,
        concurrent_view_count: e.concurrent_view_count,
        upload_date: e.upload_date,
        playlist_count: None,
        live_status: e.live_status,
        is_partial: false,
        video_type: VideoType::Video,
        parent_playlist_id: if parent { Some(pid) } else { None },
        parent_playlist_url: if parent { Some(playlist_address(pid)) } else { None },
        parent_playlist_title: if parent { e.playlist_title } else { None },
    }
}

/// The full record of a video from the members of its JSON line.
pub fn video_from_details(e: &SearchEntry) -> (v: Video)
    ensures
        v@ == details_video(e@),
{
    let pid = text_or_empty(&e.playlist_id);
    let parent = is_real_playlist_id(pid.as_str());
    let d: u64 = match e.duration {
        Some(n) => n,
        None => 0,
    };
    Video {
        id: text_or_empty(&e.id),
        title: text_or_empty(&e.title),
        channel: channel_of(e),
        channel_id: text_or_empty(&e.channel_id),
        url: text_or_empty(&first_text(&first_text(&e.webpage_url, &e.url), &e.original_url)),
        duration_string: format_duration(d),
        thumbnail_url: copy_text(&e.thumbnail),
        view_count: e.view_count,
        concurrent_view_count: e.concurrent_view_count,
        upload_date: copy_text(&e.upload_date),
        playlist_count: None,
        live_status: copy_text(&e.live_status),
        is_partial: false,
        video_type: VideoType::Video,
        parent_playlist_id: if parent { Some(pid.clone()) } else { None },
        parent_playlist_url: if parent { Some(playlist_url(pid.as_str())) } else { None },
        parent_playlist_title: if parent { copy_text(&e.playlist_title) } else { None },
    }
}

/// What one line of `yt-dlp`'s detail output gives: nothing for a blank
/// line, the video for a JSON line, and for any other line the error
/// `Failed to parse yt-dlp JSON: ` followed by the line.
pub fn parse_details_line(line: &str) -> (r: Option<Result<Video, String>>)
    ensures
        blank_line(line@) ==> r is None,
        !blank_line(line@) && json_parses(line@) ==> (r matches Some(Ok(v)) && v@ == details_video(
            entry_of(line@),
        )),
        !blank_line(line@) && !json_parses(line@) ==> (r matches Some(Err(m)) && m@
            == "Failed to parse yt-dlp JSON: "@ + line@),
{
    if is_blank(line) {
        return None;
    }
    if !json_is_document(line) {
        let mut m = String::from_str("Failed to parse yt-dlp JSON: ");
        m.append(line);
        return Some(Err(m));
    }
    let e = read_entry(line);
    Some(Ok(video_from_details(&e)))
}

/// The arguments that ask `yt-dlp` for the full records of `items`.
pub open spec fn details_arg_list(items: Seq<Seq<char>>) -> Seq<Seq<char>> {
    seq!["--dump-json"@, "--no-warnings"@] + items
}

/// The arguments of a `yt-dlp` run that fetches the full records of `items`.
pub fn details_args(items: &Vec<String>) -> (args: Vec<String>)
    ensures
        texts(args@) == details_arg_list(texts(items@)),
{
    let mut v: Vec<String> = Vec::new();
    v.push(String::from_str("--dump-json"));
    v.push(String::from_str("--no-warnings"));
    let mut i: usize = 0;
    while i < items.len()
        invariant
            i <= items.len(),
            texts(v@) == details_arg_list(texts(items@.take(i as int))),
        decreases items.len() - i,
    {
        let ghost before = v@;
        v.push(items[i].clone());
        i = i + 1;
        assert(texts(v@) =~= texts(before).push(items@[i - 1]@));
        assert(texts(items@.take(i as int)) =~= texts(items@.take(i - 1)).push(items@[i - 1]@));
        assert(details_arg_list(texts(items@.take(i as int))) =~= details_arg_list(
            texts(items@.take(i - 1)),
        ).push(items@[i - 1]@));
    }
    assert(items@.take(items.len() as int) =~= items@);
    v
}

/// What a finished `yt-dlp` run printed, and whether it succeeded.
pub struct CommandOutput {
    pub success: bool,
    pub stdout: String,
    pub stderr: String,
}

/// The message of a failed `yt-dlp` run: `yt-dlp error: ` and what it
/// printed on its error stream.
pub open spec fn run_error(out: CommandOutput) -> Seq<char> {
    "yt-dlp error: "@ + out.stderr@
}

/// The message of a failed `yt-dlp` run (see `run_error`).
fn run_error_text(out: &CommandOutput) -> (m: String)
    ensures
        m@ == run_error(*out),
{
    let mut m = String::from_str("yt-dlp error: ");
    m.append(out.stderr.as_str());
    m
}

/// How a search run ends once its output is read: the progress marked
/// complete when `yt-dlp` succeeded, else its error.
pub fn search_end(out: &CommandOutput) -> (r: Result<SearchResult, String>)
    ensures
        out.success ==> (r matches Ok(SearchResult::Progress(got, expected)) && got == 1 && expected == 1),
        !out.success ==> (r matches Err(m) && m@ == run_error(*out)),
{
    if out.success {
        Ok(SearchResult::Progress(1, 1))
    } else {
        Err(run_error_text(out))
    }
}

/// What a line of the detail output reports, by view (see
/// `parse_details_line`): nothing for a blank line.
pub open spec fn line_report(line: Seq<char>) -> Option<Result<VideoView, Seq<char>>> {
    if blank_line(line) {
        None
    } else if json_parses(line) {
        Some(Ok(details_video(entry_of(line))))
    } else {
        Some(Err("Failed to parse yt-dlp JSON: "@ + line))
    }
}

/// The reports of the lines, in order, blank lines left out.
pub open spec fn line_reports(lines: Seq<Seq<char>>) -> Seq<Result<VideoView, Seq<char>>>
    decreases lines.len(),
{
    if lines.len() == 0 {
        Seq::empty()
    } else {
        let before = line_reports(lines.drop_last());
        match line_report(lines.last()) {
            Some(r) => before.push(r),
            None => before,
        }
    }
}

/// A detail report by view.
pub open spec fn report_view(r: Result<Video, String>) -> Result<VideoView, Seq<char>> {
    match r {
        Ok(v) => Ok(v@),
        Err(m) => Err(m@),
    }
}

/// What a finished detail run reports: its error when `yt-dlp` failed,
/// else a report for each line of its output that is not blank.
pub fn details_reports(out: &CommandOutput) -> (r: Vec<Result<Video, String>>)
    ensures
        r@.map_values(|x: Result<Video, String>| report_view(x)) == (if out.success {
            line_reports(crate::config_file::lines_of(out.stdout@))
        } else {
            seq![Err(run_error(*out))]
        }),
{
    let mut v: Vec<Result<Video, String>> = Vec::new();
    if !out.success {
        v.push(Err(run_error_text(out)));
        assert(v@.map_values(|x: Result<Video, String>| report_view(x)) =~= seq![Err(run_error(*out))]);
        return v;
    }
    let ls = crate::config_file::split_lines(out.stdout.as_str());
    let ghost all = ls@.map_values(|l: Vec<char>| l@);
    let mut i: usize = 0;
    while i < ls.len()
        invariant
            i <= ls@.len(),
            all == ls@.map_values(|l: Vec<char>| l@),
            v@.map_values(|x: Result<Video, String>| report_view(x)) == line_reports(all.take(i as int)),
        decreases ls.len() - i,
    {
        let line = crate::text::string_of(ls[i].as_slice());
        let ghost before = v@;
        assert(all.take(i + 1).drop_last() =~= all.take(i as int));
        assert(all.take(i + 1).last() == line@);
        match parse_details_line(line.as_str()) {
            Some(r) => {
                v.push(r);
                assert(v@.map_values(|x: Result<Video, String>| report_view(x)) =~= before.map_values(
                    |x: Result<Video, String>| report_view(x),
                ).push(report_view(r)));
            },
            None => {},
        }
        i = i + 1;
    }
    assert(all.take(ls@.len() as int) =~= all);
    v
}

/// The arguments that ask `yt-dlp` for the direct stream address of `url`:
/// the best picture and sound, or with `best_only` the best single file.
pub open spec fn stream_arg_list(url: Seq<char>, best_only: bool) -> Seq<Seq<char>> {
    seq![
        "-g"@,
        "-f"@,
        if best_only { "best"@ } else { "bestvideo+bestaudio/best"@ },
        "--no-playlist"@,
        url,
    ]
}

/// The arguments of a stream address lookup for `url`.
pub fn stream_args(url: &str, best_only: bool) -> (args: Vec<String>)
    ensures
        texts(args@) == stream_arg_list(url@, best_only),
{
    let mut v: Vec<String> = Vec::new();
    v.push(String::from_str("-g"));
    v.push(String::from_str("-f"));
    if best_only {
        v.push(String::from_str("best"));
    } else {
        v.push(String::from_str("bestvideo+bestaudio/best"));
    }
    v.push(String::from_str("--no-playlist"));
    v.push(String::from_str(url));
    assert(texts(v@) =~= stream_arg_list(url@, best_only));
    v
}

/// Whether a stream lookup needs the `best` run after the first one: it
/// does unless the first succeeded with exactly one line.
pub open spec fn stream_needs_fallback(first: CommandOutput) -> bool {
    !(first.success && crate::config_file::lines_of(first.stdout@).len() == 1)
}

/// The first line of a text, when it has one.
pub open spec fn first_line(s: Seq<char>) -> Option<Seq<char>> {
    let ls = crate::config_file::lines_of(s);
    if ls.len() > 0 {
        Some(ls[0])
    } else {
        None
    }
}

/// The stream address a lookup settles on, from the first run and the
/// `best` run: one line from the first run is the answer; several lines
/// (separate picture and sound) give way to a non-empty `best` answer; no
/// line at all gives the `best` answer or `No stream URL found`; a failed
/// first run gives the `best` answer or `yt-dlp error: ` with the first
/// line of its error output (`Unknown error` when it has none).
pub open spec fn stream_result(first: CommandOutput, best: CommandOutput) -> Result<Seq<char>, Seq<char>> {
    let ls = crate::config_file::lines_of(first.stdout@);
    if first.success {
        if ls.len() == 0 {
            if best.success {
                Ok(trim(best.stdout@))
            } else {
                Err("No stream URL found"@)
            }
        } else if ls.len() >= 2 {
            if best.success && trim(best.stdout@).len() > 0 {
                Ok(trim(best.stdout@))
            } else {
                Ok(trim(ls[0]))
            }
        } else {
            Ok(trim(ls[0]))
        }
    } else if best.success {
        Ok(trim(best.stdout@))
    } else {
        Err("yt-dlp error: "@ + or_text(first_line(first.stderr@), "Unknown error"@))
    }
}

/// The texts of a result of strings.
pub open spec fn result_text(r: Result<String, String>) -> Result<Seq<char>, Seq<char>> {
    match r {
        Ok(s) => Ok(s@),
        Err(e) => Err(e@),
    }
}

/// `s` without white space at either end.
pub fn trim_str(s: &str) -> (r: String)
    ensures
        r@ == trim(s@),
{
    let c = chars_of(s);
    let t = trimmed(c.as_slice());
    crate::text::string_of(t.as_slice())
}

/// The stream address a lookup settles on. `best` is the output of the
/// `best` run; `None` when it has not run, and then the answer is `None`
/// exactly when that run is needed.
pub fn best_stream_url(first: &CommandOutput, best: Option<&CommandOutput>) -> (r: Option<Result<String, String>>)
    ensures
        !stream_needs_fallback(*first) ==> (r matches Some(Ok(u)) && u@ == trim(
            crate::config_file::lines_of(first.stdout@)[0],
        )),
        stream_needs_fallback(*first) && best is None ==> r is None,
        stream_needs_fallback(*first) && best is Some ==> r is Some && result_text(r.unwrap())
            == stream_result(*first, *best.unwrap()),
{
    let ls = crate::config_file::split_lines(first.stdout.as_str());
    proof {
        assert(ls@.len() == crate::config_file::lines_of(first.stdout@).len());
    }
    if first.success && ls.len() == 1 {
        assert(ls@.map_values(|l: Vec<char>| l@)[0] == ls@[0]@);
        let t = trimmed(ls[0].as_slice());
        return Some(Ok(crate::text::string_of(t.as_slice())));
    }
    let b = match best {
        Some(b) => b,
        None => return None,
    };
    if first.success {
        if ls.len() == 0 {
            if b.success {
                Some(Ok(trim_str(b.stdout.as_str())))
            } else {
                Some(Err(String::from_str("No stream URL found")))
            }
        } else {
            assert(ls@.map_values(|l: Vec<char>| l@)[0] == ls@[0]@);
            let bt = trim_str(b.stdout.as_str());
            if b.success && !bt.as_str().is_empty() {
                Some(Ok(bt))
            } else {
                let t = trimmed(ls[0].as_slice());
                Some(Ok(crate::text::string_of(t.as_slice())))
            }
        }
    } else if b.success {
        Some(Ok(trim_str(b.stdout.as_str())))
    } else {
        let el = crate::config_file::split_lines(first.stderr.as_str());
        let mut m = String::from_str("yt-dlp error: ");
        if el.len() > 0 {
            assert(el@.map_values(|l: Vec<char>| l@)[0] == el@[0]@);
            crate::text::push_chars(&mut m, el[0].as_slice());
        } else {
            m.append("Unknown error");
        }
        Some(Err(m))
    }
}

/// The user agent a terminal stream is played with: what `yt-dlp` printed,
/// trimmed, or `Mozilla/5.0` when the run failed.
pub fn user_agent_from(out: &CommandOutput) -> (ua: String)
    ensures
        ua@ == (if out.success { trim(out.stdout@) } else { "Mozilla/5.0"@ }),
{
    if out.success {
        trim_str(out.stdout.as_str())
    } else {
        String::from_str("Mozilla/5.0")
    }
}

/// A stream address and the user agent to fetch it with, joined by `|`.
pub fn terminal_target(url: &str, user_agent: &str) -> (r: String)
    ensures
        r@ == url@ + "|"@ + user_agent@,
{
    let mut r = String::from_str(url);
    r.append("|");
    r.append(user_agent);
    r
}

/// The position of the first `c` in `s`, if any.
pub open spec fn first_index_of(s: Seq<char>, c: char) -> Option<int> {
    if exists|i: int| 0 <= i < s.len() && s[i] == c {
        Some(choose|i: int| 0 <= i < s.len() && s[i] == c && forall|j: int| 0 <= j < i ==> s[j] != c)
    } else {
        None
    }
}

/// How a ready terminal target is split: a web address holding `|` is the
/// address before the first `|` and the user agent after it; anything else
/// is played as it is, with no user agent.
pub open spec fn split_target(s: Seq<char>) -> (Seq<char>, Option<Seq<char>>) {
    match first_index_of(s, '|') {
        Some(i) => if starts_with(s, "http"@) {
            (s.take(i), Some(s.skip(i + 1)))
        } else {
            (s, None)
        },
        None => (s, None),
    }
}

/// Splits a ready terminal target into the address and the user agent.
pub fn split_terminal_target(s: &str) -> (r: (String, Option<String>))
    ensures
        (r.0@, opt_text(r.1)) == split_target(s@),
{
    let c = chars_of(s);
    let mut i: usize = 0;
    while i < c.len() && c[i] != '|'
        invariant
            i <= c.len(),
            c@ == s@,
            forall|j: int| 0 <= j < i ==> c@[j] != '|',
        decreases c.len() - i,
    {
        i = i + 1;
    }
    if i == c.len() {
        assert(!exists|k: int| 0 <= k < s@.len() && s@[k] == '|');
        return (String::from_str(s), None);
    }
    assert(first_index_of(s@, '|') == Some(i as int)) by {
        let k = choose|k: int| 0 <= k < s@.len() && s@[k] == '|' && forall|j: int| 0 <= j < k ==> s@[j] != '|';
        assert(0 <= i < s@.len() && s@[i as int] == '|' && forall|j: int| 0 <= j < i ==> s@[j] != '|');
        if k < i {
        } else if k > i {
            assert(s@[i as int] != '|');
        }
    }
    if !str_starts_with(s, "http") {
        return (String::from_str(s), None);
    }
    let mut a: Vec<char> = Vec::new();
    let mut j: usize = 0;
    while j < i
        invariant
            j <= i < c.len(),
            a@ == c@.take(j as int),
        decreases i - j,
    {
        a.push(c[j]);
        j = j + 1;
        assert(a@ =~= c@.take(j as int));
    }
    let mut b: Vec<char> = Vec::new();
    let mut k: usize = i + 1;
    while k < c.len()
        invariant
            i < k <= c.len(),
            b@ == c@.subrange(i + 1, k as int),
        decreases c.len() - k,
    {
        b.push(c[k]);
        k = k + 1;
        assert(b@ =~= c@.subrange(i + 1, k as int));
    }
    assert(b@ =~= c@.skip(i + 1));
    (crate::text::string_of(a.as_slice()), Some(crate::text::string_of(b.as_slice())))
}

/// Where `p` first occurs in `s`, if it does.
pub open spec fn first_occurrence(s: Seq<char>, p: Seq<char>) -> Option<int> {
    if contains(s, p) {
        Some(choose|i: int| occurs_at(s, p, i) && forall|j: int| 0 <= j < i ==> !occurs_at(s, p, j))
    } else {
        None
    }
}

/// The piece of `s` between the first and the second occurrence of `p`
/// (to the end when there is no second): `s.split(p).nth(1)`.
pub open spec fn second_piece(s: Seq<char>, p: Seq<char>) -> Option<Seq<char>> {
    match first_occurrence(s, p) {
        Some(i) => {
            let rest = s.skip(i + p.len());
            match first_occurrence(rest, p) {
                Some(j) => Some(rest.take(j)),
                None => Some(rest),
            }
        },
        None => None,
    }
}

/// The text of `s` before its first space: `s.split(" ").next()`.
pub open spec fn first_word(s: Seq<char>) -> Seq<char> {
    match first_index_of(s, ' ') {
        Some(j) => s.take(j),
        None => s,
    }
}

/// The version named after `label` on a line of `yt-dlp -U` output.
pub open spec fn version_after(line: Seq<char>, label: Seq<char>) -> Option<Seq<char>> {
    match second_piece(line, label) {
        Some(t) => Some(first_word(t)),
        None => None,
    }
}

/// The current and the latest version that the lines report; a later line
/// that names one replaces what an earlier line said.
pub open spec fn reported_versions(lines: Seq<Seq<char>>) -> (Option<Seq<char>>, Option<Seq<char>>)
    decreases lines.len(),
{
    if lines.len() == 0 {
        (None, None)
    } else {
        version_step(reported_versions(lines.drop_last()), lines.last())
    }
}

/// The versions known after reading one more line.
pub open spec fn version_step(known: (Option<Seq<char>>, Option<Seq<char>>), line: Seq<char>) -> (Option<Seq<char>>, Option<Seq<char>>) {
    if contains(line, "Current version:"@) {
        (version_after(line, "Current version: "@), known.1)
    } else if contains(line, "Latest version:"@) {
        (known.0, version_after(line, "Latest version: "@))
    } else {
        known
    }
}

proof fn lemma_versions_step(ls: Seq<Seq<char>>, i: int)
    requires
        0 <= i < ls.len(),
    ensures
        reported_versions(ls.take(i + 1)) == version_step(reported_versions(ls.take(i)), ls[i]),
{
    assert(ls.take(i + 1).drop_last() =~= ls.take(i));
}

/// The texts of an optional character list.
pub open spec fn opt_chars(o: Option<Vec<char>>) -> Option<Seq<char>> {
    match o {
        Some(v) => Some(v@),
        None => None,
    }
}

/// `a` sorts before `b`, character by character (`String`'s order).
pub open spec fn text_less(a: Seq<char>, b: Seq<char>) -> bool
    decreases a.len(),
{
    if b.len() == 0 {
        false
    } else if a.len() == 0 {
        true
    } else if a[0] != b[0] {
        (a[0] as u32) < (b[0] as u32)
    } else {
        text_less(a.drop_first(), b.drop_first())
    }
}

/// What `yt-dlp -U` says of the installed version.
pub enum UpdateStatus {
    /// A newer release exists; it holds the latest version.
    Behind(String),
    UpToDate,
    /// The output could not be read.
    Unknown,
}

/// The verdict on the output of `yt-dlp -U`: behind when both versions are
/// named and the current one sorts before the latest, up to date when both
/// are named otherwise or the output says `is up to date`, else unknown.
pub open spec fn update_verdict(out: Seq<char>) -> Option<Option<Seq<char>>> {
    let (c, l) = reported_versions(crate::config_file::lines_of(out));
    if c is Some && l is Some {
        if text_less(c.unwrap(), l.unwrap()) {
            Some(Some(l.unwrap()))
        } else {
            Some(None)
        }
    } else if contains(out, "is up to date"@) {
        Some(None)
    } else {
        None
    }
}

/// Where `p` first occurs in `s`.
pub fn find_text(s: &[char], p: &[char]) -> (r: Option<usize>)
    ensures
        match r {
            Some(i) => first_occurrence(s@, p@) == Some(i as int) && occurs_at(s@, p@, i as int)
                && forall|j: int| 0 <= j < i ==> !occurs_at(s@, p@, j),
            None => first_occurrence(s@, p@) is None,
        },
{
    if p.len() > s.len() {
        assert(!contains(s@, p@));
        return None;
    }
    let last = s.len() - p.len();
    let mut i: usize = 0;
    loop
        invariant
            last == s.len() - p.len(),
            i <= last,
            forall|j: int| 0 <= j < i ==> !occurs_at(s@, p@, j),
        ensures
            forall|j: int| 0 <= j <= last ==> !occurs_at(s@, p@, j),
        decreases last - i,
    {
        if crate::text::matches_at(s, p, i) {
            assert(first_occurrence(s@, p@) == Some(i as int)) by {
                assert(contains(s@, p@));
                let k = choose|k: int| occurs_at(s@, p@, k) && forall|j: int| 0 <= j < k ==> !occurs_at(s@, p@, j);
                if k < i {
                } else if k > i {
                    assert(!occurs_at(s@, p@, i as int));
                }
            }
            return Some(i);
        }
        if i == last {
            break;
        }
        i = i + 1;
    }
    assert(!contains(s@, p@)) by {
        assert forall|j: int| !occurs_at(s@, p@, j) by {
            if 0 <= j <= last {
            }
        }
    }
    None
}

/// The text of `v` from position `a` on.
fn tail_from(v: &[char], a: usize) -> (r: Vec<char>)
    requires
        a <= v.len(),
    ensures
        r@ == v@.skip(a as int),
{
    let mut rest: Vec<char> = Vec::new();
    let mut k: usize = a;
    while k < v.len()
        invariant
            a <= k <= v.len(),
            rest@ == v@.subrange(a as int, k as int),
        decreases v.len() - k,
    {
        rest.push(v[k]);
        k = k + 1;
        assert(rest@ =~= v@.subrange(a as int, k as int));
    }
    assert(rest@ =~= v@.skip(a as int));
    rest
}

/// The text of `s` before its first space.
fn word_of(piece: &[char]) -> (r: Vec<char>)
    ensures
        r@ == first_word(piece@),
{
    let mut word: Vec<char> = Vec::new();
    let mut m: usize = 0;
    while m < piece.len() && piece[m] != ' '
        invariant
            m <= piece.len(),
            word@ == piece@.take(m as int),
            forall|j: int| 0 <= j < m ==> piece@[j] != ' ',
        decreases piece.len() - m,
    {
        word.push(piece[m]);
        m = m + 1;
        assert(word@ =~= piece@.take(m as int));
    }
    if m < piece.len() {
        assert(first_index_of(piece@, ' ') == Some(m as int)) by {
            let w = choose|w: int| 0 <= w < piece@.len() && piece@[w] == ' ' && forall|j: int| 0 <= j < w ==> piece@[j] != ' ';
            if w < m {
            } else if w > m {
            }
        }
    } else {
        assert(word@ =~= piece@);
    }
    word
}

/// The version named after `label` on `line`.
fn version_on(line: &[char], label: &str) -> (r: Option<Vec<char>>)
    ensures
        match r {
            Some(v) => version_after(line@, label@) == Some(v@),
            None => version_after(line@, label@) is None,
        },
{
    let p = chars_of(label);
    let found = find_text(line, p.as_slice());
    let i = match found {
        Some(i) => i,
        None => return None,
    };
    assert(occurs_at(line@, p@, i as int));
    let n = p.len();
    let total = line.len();
    assert(i + n <= total);
    let rest = tail_from(line, i + n);
    let piece = match find_text(rest.as_slice(), p.as_slice()) {
        Some(j) => {
            let mut t: Vec<char> = Vec::new();
            let mut k: usize = 0;
            while k < j
                invariant
                    k <= j <= rest.len(),
                    t@ == rest@.take(k as int),
                decreases j - k,
            {
                t.push(rest[k]);
                k = k + 1;
                assert(t@ =~= rest@.take(k as int));
            }
            t
        },
        None => rest,
    };
    assert(second_piece(line@, p@) == Some(piece@));
    Some(word_of(piece.as_slice()))
}

/// Whether `a` sorts before `b`.
fn less_text(a: &[char], b: &[char]) -> (r: bool)
    ensures
        r == text_less(a@, b@),
{
    let mut i: usize = 0;
    assert(a@.skip(0) =~= a@);
    assert(b@.skip(0) =~= b@);
    while i < a.len() && i < b.len() && a[i] == b[i]
        invariant
            i <= a.len(),
            i <= b.len(),
            text_less(a@, b@) == text_less(a@.skip(i as int), b@.skip(i as int)),
        decreases a.len() - i,
    {
        assert(a@.skip(i as int).drop_first() =~= a@.skip(i + 1));
        assert(b@.skip(i as int).drop_first() =~= b@.skip(i + 1));
        i = i + 1;
    }
    proof {
        if i == 0 {
            assert(a@.skip(0) =~= a@);
            assert(b@.skip(0) =~= b@);
        }
    }
    if i == b.len() {
        false
    } else if i == a.len() {
        true
    } else {
        (a[i] as u32) < (b[i] as u32)
    }
}

/// Reads the output of `yt-dlp -U`: whether the installed version is
/// behind the latest release (see `update_verdict`).
pub fn update_status(out: &str) -> (r: UpdateStatus)
    ensures
        match r {
            UpdateStatus::Behind(l) => update_verdict(out@) == Some(Some(l@)),
            UpdateStatus::UpToDate => update_verdict(out@) == Some(None::<Seq<char>>),
            UpdateStatus::Unknown => update_verdict(out@) is None,
        },
{
    let lines = crate::config_file::split_lines(out);
    let ghost ls = crate::config_file::lines_of(out@);
    let mut current: Option<Vec<char>> = None;
    let mut latest: Option<Vec<char>> = None;
    let mut i: usize = 0;
    assert(ls.take(0) =~= Seq::<Seq<char>>::empty());
    while i < lines.len()
        invariant
            i <= lines.len(),
            lines@.map_values(|l: Vec<char>| l@) == ls,
            ls == crate::config_file::lines_of(out@),
            reported_versions(ls.take(i as int)) == (opt_chars(current), opt_chars(latest)),
        decreases lines.len() - i,
    {
        let line = lines[i].as_slice();
        assert(ls[i as int] == line@);
        proof {
            lemma_versions_step(ls, i as int);
        }
        let cur_label = chars_of("Current version:");
        let lat_label = chars_of("Latest version:");
        if crate::text::has_substring(line, cur_label.as_slice()) {
            current = version_on(line, "Current version: ");
        } else if crate::text::has_substring(line, lat_label.as_slice()) {
            latest = version_on(line, "Latest version: ");
        }
        i = i + 1;
    }
    assert(ls.take(lines.len() as int) =~= ls);
    match (current, latest) {
        (Some(c), Some(l)) => {
            if less_text(c.as_slice(), l.as_slice()) {
                UpdateStatus::Behind(crate::text::string_of(l.as_slice()))
            } else {
                UpdateStatus::UpToDate
            }
        },
        _ => {
            if str_contains(out, "is up to date") {
                UpdateStatus::UpToDate
            } else {
                UpdateStatus::Unknown
            }
        },
    }
}
} // verus!
