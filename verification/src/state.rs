//! The vocabulary of the application's state machine: modes, screens,
//! keys, menu actions, and the effects the caller carries out.
use vstd::prelude::*;
use crate::model::Video;

verus! {

/// Whether keys go to the search bar or to the screens.
#[derive(Clone, Copy, Debug, PartialEq, Eq, Structural)]
pub enum InputMode {
    Normal,
    Editing,
    /// Waiting for `yt-dlp`; only cancelling is possible.
    Loading,
}

/// The screen that has the keyboard.
#[derive(Clone, Copy, Debug, PartialEq, Eq, Structural)]
pub enum AppState {
    Search,
    Results,
    ActionMenu,
    FormatSelection,
    Downloads,
    Settings,
    DownloadDialog,
}

/// The entries of the action menu.
#[derive(Clone, Copy, Debug, PartialEq, Eq, Structural)]
pub enum AppAction {
    WatchExternal,
    WatchInTerminal,
    ListenAudio,
    Download,
    DownloadPlaylist,
    DownloadSelected,
    ViewPlaylist,
    PlayLocalExternal,
    PlayLocalTerminal,
    PlayLocalAudio,
    DeleteLocalFile,
    DeleteSelectedLocalFiles,
    CleanupLocalGarbage,
    CancelSelectedDownloads,
    CancelDownload,
    ResumeDownload,
    ResumeSelectedDownloads,
    CopyUrlOrId,
    OpenInBrowser,
}

/// A key, as far as the application tells keys apart.
#[derive(Clone, Copy, Debug, PartialEq, Eq, Structural)]
pub enum Key {
    Char(char),
    Enter,
    Esc,
    Tab,
    Backspace,
    Delete,
    Left,
    Right,
    Up,
    Down,
    Home,
    End,
    Other,
}

/// An entry of the action menu: its key, its label and what it does.
pub struct Action {
    pub key: Key,
    pub name: &'static str,
    pub action: AppAction,
}

impl Action {
    /// The menu entry `name` under `key`.
    pub fn new(key: Key, name: &'static str, action: AppAction) -> (a: Action)
        ensures
            a.key == key,
            a.name@ == name@,
            a.action == action,
    {
        Action { key, name, action }
    }
}

/// What the user asks of a running download.
pub enum DownloadControl {
    Pause(String),
    Resume(String),
    Cancel(String),
}

/// Which videos the download dialog downloads.
#[derive(Clone, Copy, Debug, PartialEq, Eq, Structural)]
pub enum DownloadDialogMode {
    /// The chosen video; the dialog also offers the format picker.
    Single,
    BulkSelected,
    BulkAll,
}

/// What the format picker is for.
#[derive(Clone, Copy, Debug, PartialEq, Eq, Structural)]
pub enum FormatSelectionMode {
    Watch,
    Download,
}

/// A rectangle of terminal cells.
#[derive(Clone, Copy, Debug, PartialEq, Eq, Structural)]
pub struct Rect {
    pub x: u16,
    pub y: u16,
    pub width: u16,
    pub height: u16,
}

/// The cell `(x, y)` lies in `area`.
pub open spec fn in_rect(x: u16, y: u16, area: Rect) -> bool {
    &&& x >= area.x
    &&& x < area.x + area.width
    &&& y >= area.y
    &&& y < area.y + area.height
}

/// Whether the cell `(x, y)` lies in `area`.
pub fn is_in_rect(x: u16, y: u16, area: Rect) -> (b: bool)
    ensures
        b == in_rect(x, y, area),
{
    (x as u32) >= (area.x as u32) && (x as u32) < (area.x as u32) + (area.width as u32) && (y as u32)
        >= (area.y as u32) && (y as u32) < (area.y as u32) + (area.height as u32)
}

/// What follows a rescan of the download directory.
#[derive(Clone, Copy, Debug, PartialEq, Eq, Structural)]
pub enum AfterScan {
    Nothing,
    /// The downloads panel was just opened: select its first entry.
    SelectFirst,
    /// A click on the downloads panel at row `y` waits for the fresh list.
    DownloadsClick { y: u16, double_click: bool },
}

/// Work the state machine hands to its caller, in order.
pub enum Effect {
    /// Run a search for entries `start` to `end`; its results come back
    /// tagged with `search_id`.
    Search { query: String, start: u32, end: u32, search_id: u64, show_live: bool, show_playlists: bool },
    /// Fetch the formats of the video at this address.
    FetchFormats(String),
    /// Start downloading the video in the format.
    StartDownload(Video, String),
    /// Pause, resume or cancel a running download.
    Control(DownloadControl),
    /// Fetch the full records of these addresses.
    ResolveDetails(Vec<String>),
    /// Fetch the thumbnail of the video `id` from the address.
    FetchImage(String, String),
    /// Write this command to the player's control socket.
    PlayerCommand(String),
    /// Stop the player process.
    StopPlayer,
    /// Tell the system media controls whether something plays.
    MediaPlaying(bool),
    /// Save the configuration (`App::save_config`).
    SaveConfig,
    /// Look up where the saved configuration puts the log file and report
    /// it to `App::log_path_reported`.
    ReportLogPath,
    /// Rescan the download directory and hand the entries to `App::local_files_scanned`.
    RefreshLocalFiles(AfterScan),
    /// Delete this file and report to `App::file_deleted`.
    DeleteFile(String),
    /// Delete these files, whatever comes of it.
    DeleteFiles(Vec<String>),
    /// Delete a download's metadata file and partial file.
    DeleteTaskFiles(String),
    /// Remove the leftovers of the download directory and report to `App::cleanup_done`.
    CleanupGarbage,
    /// Copy the text (the label names it) and report to `App::copy_done`.
    CopyText(String, String),
    /// Open the address in the browser and report to `App::browser_opened`.
    OpenBrowser(String),
    /// Look up the direct stream of the address for terminal playback.
    StartTerminalLoading(String),
}

} // verus!
