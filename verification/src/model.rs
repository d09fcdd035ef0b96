//! The records the application passes around: videos, formats, local files
//! and download tasks.
use vstd::prelude::*;
use crate::text::opt_text;

verus! {

/// What a search result stands for.
#[derive(Clone, Copy, Debug, PartialEq, Eq, Structural)]
pub enum VideoType {
    Video,
    Channel,
    Playlist,
}

/// A search result: a video, a channel or a playlist.
pub struct Video {
    pub id: String,
    pub title: String,
    pub channel: String,
    pub channel_id: String,
    pub url: String,
    pub duration_string: String,
    pub thumbnail_url: Option<String>,
    pub view_count: Option<u64>,
    pub concurrent_view_count: Option<u64>,
    pub upload_date: Option<String>,
    pub playlist_count: Option<u64>,
    pub live_status: Option<String>,
    pub is_partial: bool,
    pub video_type: VideoType,
    pub parent_playlist_id: Option<String>,
    pub parent_playlist_url: Option<String>,
    pub parent_playlist_title: Option<String>,
}

/// The contents of a `Video`, its texts taken as character sequences.
pub ghost struct VideoView {
    pub id: Seq<char>,
    pub title: Seq<char>,
    pub channel: Seq<char>,
    pub channel_id: Seq<char>,
    pub url: Seq<char>,
    pub duration_string: Seq<char>,
    pub thumbnail_url: Option<Seq<char>>,
    pub view_count: Option<u64>,
    pub concurrent_view_count: Option<u64>,
    pub upload_date: Option<Seq<char>>,
    pub playlist_count: Option<u64>,
    pub live_status: Option<Seq<char>>,
    pub is_partial: bool,
    pub video_type: VideoType,
    pub parent_playlist_id: Option<Seq<char>>,
    pub parent_playlist_url: Option<Seq<char>>,
    pub parent_playlist_title: Option<Seq<char>>,
}

impl View for Video {
    type V = VideoView;

    open spec fn view(&self) -> VideoView {
        VideoView {
            id: self.id@,
            title: self.title@,
            channel: self.channel@,
            channel_id: self.channel_id@,
            url: self.url@,
            duration_string: self.duration_string@,
            thumbnail_url: opt_text(self.thumbnail_url),
            view_count: self.view_count,
            concurrent_view_count: self.concurrent_view_count,
            upload_date: opt_text(self.upload_date),
            playlist_count: self.playlist_count,
            live_status: opt_text(self.live_status),
            is_partial: self.is_partial,
            video_type: self.video_type,
            parent_playlist_id: opt_text(self.parent_playlist_id),
            parent_playlist_url: opt_text(self.parent_playlist_url),
            parent_playlist_title: opt_text(self.parent_playlist_title),
        }
    }
}

/// A copy of an optional string.
pub fn copy_opt(s: &Option<String>) -> (r: Option<String>)
    ensures
        r == *s,
{
    match s {
        Some(v) => Some(v.clone()),
        None => None,
    }
}

impl Video {
    /// The view of an empty video record.
    pub open spec fn empty_view() -> VideoView {
        VideoView {
            id: Seq::empty(),
            title: Seq::empty(),
            channel: Seq::empty(),
            channel_id: Seq::empty(),
            url: Seq::empty(),
            duration_string: Seq::empty(),
            thumbnail_url: None,
            view_count: None,
            concurrent_view_count: None,
            upload_date: None,
            playlist_count: None,
            live_status: None,
            is_partial: false,
            video_type: VideoType::Video,
            parent_playlist_id: None,
            parent_playlist_url: None,
            parent_playlist_title: None,
        }
    }

    /// An empty video record: every text empty, no counts, a full (not
    /// partial) plain video.
    pub fn empty() -> (v: Video)
        ensures
            v@ == Video::empty_view(),
            v.id@.len() == 0 && v.title@.len() == 0 && v.url@.len() == 0,
            v.channel@.len() == 0 && v.channel_id@.len() == 0 && v.duration_string@.len() == 0,
            v.thumbnail_url is None && v.view_count is None && v.concurrent_view_count is None,
            v.upload_date is None && v.playlist_count is None && v.live_status is None,
            !v.is_partial && v.video_type == VideoType::Video,
            v.parent_playlist_id is None && v.parent_playlist_url is None,
            v.parent_playlist_title is None,
    {
        Video {
            id: String::new(),
            title: String::new(),
            channel: String::new(),
            channel_id: String::new(),
            url: String::new(),
            duration_string: String::new(),
            thumbnail_url: None,
            view_count: None,
            concurrent_view_count: None,
            upload_date: None,
            playlist_count: None,
            live_status: None,
            is_partial: false,
            video_type: VideoType::Video,
            parent_playlist_id: None,
            parent_playlist_url: None,
            parent_playlist_title: None,
        }
    }

    /// An identical copy.
    pub fn duplicate(&self) -> (v: Video)
        ensures
            v == *self,
    {
        Video {
            id: self.id.clone(),
            title: self.title.clone(),
            channel: self.channel.clone(),
            channel_id: self.channel_id.clone(),
            url: self.url.clone(),
            duration_string: self.duration_string.clone(),
            thumbnail_url: copy_opt(&self.thumbnail_url),
            view_count: self.view_count,
            concurrent_view_count: self.concurrent_view_count,
            upload_date: copy_opt(&self.upload_date),
            playlist_count: self.playlist_count,
            live_status: copy_opt(&self.live_status),
            is_partial: self.is_partial,
            video_type: self.video_type,
            parent_playlist_id: copy_opt(&self.parent_playlist_id),
            parent_playlist_url: copy_opt(&self.parent_playlist_url),
            parent_playlist_title: copy_opt(&self.parent_playlist_title),
        }
    }
}

/// Identical copies of a list of videos.
pub fn duplicate_videos(v: &Vec<Video>) -> (r: Vec<Video>)
    ensures
        r@ == v@,
{
    let mut r: Vec<Video> = Vec::new();
    let mut i: usize = 0;
    while i < v.len()
        invariant
            i <= v.len(),
            r@ == v@.take(i as int),
        decreases v.len() - i,
    {
        r.push(v[i].duplicate());
        i = i + 1;
        assert(r@ =~= v@.take(i as int));
    }
    assert(v@.take(v.len() as int) =~= v@);
    r
}

/// One of the streams a video can be played or downloaded in.
pub struct VideoFormat {
    pub format_id: String,
    pub ext: String,
    pub resolution: String,
    pub note: String,
    pub filesize: Option<u64>,
    pub has_audio: bool,
}

/// A finished download found in the download directory.
pub struct LocalFile {
    pub name: String,
    pub path: String,
    pub size: String,
    pub extension: String,
    pub is_garbage: bool,
    pub modified: u64,
}

/// Where a download stands.
#[derive(PartialEq, Eq)]
pub enum DownloadStatus {
    Pending,
    Downloading,
    Paused,
    Canceled,
    Finished,
    Error(String),
}

/// A copy of a download status.
pub fn copy_status(s: &DownloadStatus) -> (r: DownloadStatus)
    ensures
        r == *s,
{
    match s {
        DownloadStatus::Pending => DownloadStatus::Pending,
        DownloadStatus::Downloading => DownloadStatus::Downloading,
        DownloadStatus::Paused => DownloadStatus::Paused,
        DownloadStatus::Canceled => DownloadStatus::Canceled,
        DownloadStatus::Finished => DownloadStatus::Finished,
        DownloadStatus::Error(e) => DownloadStatus::Error(e.clone()),
    }
}

/// A download the application started or found on disk.
pub struct DownloadTask {
    pub id: String,
    pub title: String,
    pub video: Video,
    pub format_id: String,
    pub status: DownloadStatus,
    /// The percentage done, as the bit pattern of the IEEE double that the
    /// progress line gave; the library carries it without reading it.
    pub progress_bits: u64,
    pub speed: String,
    pub eta: String,
    pub total_size: String,
    pub pid: Option<u32>,
    pub info_json_path: Option<String>,
}

impl DownloadTask {
    /// A pending task for `video` in format `format_id`, with nothing
    /// downloaded yet.
    pub fn new(video: Video, format_id: String) -> (t: DownloadTask)
        ensures
            t.id == video.id,
            t.title == video.title,
            t.video == video,
            t.format_id == format_id,
            t.status == DownloadStatus::Pending,
            t.progress_bits == 0,
            t.speed@.len() == 0 && t.eta@.len() == 0 && t.total_size@.len() == 0,
            t.pid is None,
            t.info_json_path is None,
    {
        DownloadTask {
            id: video.id.clone(),
            title: video.title.clone(),
            video,
            format_id,
            status: DownloadStatus::Pending,
            progress_bits: 0,
            speed: String::new(),
            eta: String::new(),
            total_size: String::new(),
            pid: None,
            info_json_path: None,
        }
    }
}

/// What the download worker reports about a download.
pub enum DownloadEvent {
    /// Progress: id, percentage (bits of an IEEE double), speed, eta, total size.
    Update(String, u64, String, String, String),
    Finished(String),
    Error(String, String),
    Started(String, u32),
    Pause(String),
    Resume(String),
    Canceled(String),
}

} // verus!
