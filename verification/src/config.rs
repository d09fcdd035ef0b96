//! The configuration file's contents and the settings derived from it.
use vstd::prelude::*;
use crate::text::{chars_of, string_of, push_char, push_decimal, decimal, trim, trimmed, same_chars};
use crate::json::{json_quote, json_string};
use crate::widgets::{AnimationMode, animation_name};

verus! {

broadcast use vstd::string::group_string_axioms;

/// Which custom executables to use instead of the ones on `PATH`.
pub struct Executables {
    pub enabled: bool,
    pub mpv: Option<String>,
    pub ytdlp: Option<String>,
    pub ffmpeg: Option<String>,
    pub deno: Option<String>,
}

impl Default for Executables {
    fn default() -> (e: Self)
        ensures
            !e.enabled && e.mpv is None && e.ytdlp is None && e.ffmpeg is None && e.deno is None,
    {
        Executables { enabled: false, mpv: None, ytdlp: None, ffmpeg: None, deno: None }
    }
}

/// Where `yt-dlp` takes cookies from.
#[derive(PartialEq, Eq)]
pub enum CookieSource {
    Off,
    Browser(String),
    Netscape(String),
    Json(String),
}

impl Default for CookieSource {
    fn default() -> (s: Self)
        ensures
            s == CookieSource::Off,
    {
        CookieSource::Off
    }
}

/// The cookie section of the configuration.
pub struct Cookies {
    pub enabled: bool,
    pub source: CookieSource,
}

impl Default for Cookies {
    fn default() -> (c: Self)
        ensures
            !c.enabled && c.source == CookieSource::Off,
    {
        Cookies { enabled: false, source: CookieSource::Off }
    }
}

/// The logging section of the configuration.
pub struct Logging {
    pub enabled: bool,
    pub path: Option<String>,
}

impl Default for Logging {
    fn default() -> (l: Self)
        ensures
            !l.enabled && l.path is None,
    {
        Logging { enabled: false, path: None }
    }
}

/// The whole configuration file.
pub struct Config {
    pub theme: String,
    pub search_limit: u32,
    pub playlist_limit: u32,
    pub download_directory: String,
    pub animation: AnimationMode,
    pub show_live: bool,
    pub show_playlists: bool,
    pub executables: Executables,
    pub cookies: Cookies,
    pub logging: Logging,
}

/// The theme used when the file names none: `Default`.
pub fn default_theme() -> (s: String)
    ensures
        s@ == "Default"@,
{
    String::from_str("Default")
}

/// Results fetched per search page when the file names no number: 20.
pub fn default_search_limit() -> (n: u32)
    ensures
        n == 20,
{
    20
}

/// Playlist entries fetched when the file names no number: 15.
pub fn default_playlist_limit() -> (n: u32)
    ensures
        n == 15,
{
    15
}

/// The logo animation used when the file names none: `Glitch`.
pub fn default_animation() -> (m: AnimationMode)
    ensures
        m == AnimationMode::Glitch,
{
    AnimationMode::Glitch
}

/// The value of switches that are on unless the file says otherwise.
pub fn default_true() -> (b: bool)
    ensures
        b,
{
    true
}

/// The value of switches that are off unless the file says otherwise.
pub fn default_false() -> (b: bool)
    ensures
        !b,
{
    false
}

impl Config {
    /// The configuration used when there is no file, downloading into `dir`.
    pub fn with_download_directory(dir: String) -> (c: Config)
        ensures
            c.theme@ == "Default"@,
            c.search_limit == 20,
            c.playlist_limit == 15,
            c.download_directory == dir,
            c.animation == AnimationMode::Glitch,
            c.show_live && c.show_playlists,
            !c.executables.enabled && c.executables.mpv is None && c.executables.ytdlp is None,
            c.executables.ffmpeg is None && c.executables.deno is None,
            !c.cookies.enabled && c.cookies.source == CookieSource::Off,
            !c.logging.enabled && c.logging.path is None,
    {
        Config {
            theme: default_theme(),
            search_limit: default_search_limit(),
            playlist_limit: default_playlist_limit(),
            download_directory: dir,
            animation: default_animation(),
            show_live: default_true(),
            show_playlists: default_true(),
            executables: Executables::default(),
            cookies: Cookies::default(),
            logging: Logging::default(),
        }
    }
}

/// How `yt-dlp` and `mpv` get cookies.
#[derive(PartialEq, Eq)]
pub enum CookieMode {
    Off,
    /// Switched on in the settings menu, with no source configured yet.
    Unsetted,
    File(String),
    Browser(String),
}

/// The settings the running application works with.
pub struct Settings {
    pub enable_logging: bool,
    pub use_custom_paths: bool,
    pub cookie_mode: CookieMode,
    pub mpv_path: String,
    pub ytdlp_path: String,
    pub ffmpeg_path: String,
    pub deno_path: String,
    pub cookie_file: Option<String>,
    pub browser_name: Option<String>,
    pub log_path: Option<String>,
}

impl Default for Settings {
    fn default() -> (s: Self)
        ensures
            !s.enable_logging && !s.use_custom_paths && s.cookie_mode == CookieMode::Off,
            s.mpv_path@ == "mpv"@ && s.ytdlp_path@ == "yt-dlp"@,
            s.ffmpeg_path@ == "ffmpeg"@ && s.deno_path@ == "deno"@,
            s.cookie_file is None && s.browser_name is None && s.log_path is None,
    {
        Settings {
            enable_logging: false,
            use_custom_paths: false,
            cookie_mode: CookieMode::Off,
            mpv_path: String::from_str("mpv"),
            ytdlp_path: String::from_str("yt-dlp"),
            ffmpeg_path: String::from_str("ffmpeg"),
            deno_path: String::from_str("deno"),
            cookie_file: None,
            browser_name: None,
            log_path: None,
        }
    }
}

/// The text of `o`, or `d` when there is none.
pub open spec fn text_or(o: Option<String>, d: Seq<char>) -> Seq<char> {
    match o {
        Some(s) => s@,
        None => d,
    }
}

/// The settings read from a configuration: each executable path from the
/// file or its plain name, the cookie mode from the cookie section (off
/// unless the section is enabled with a source), and the logging switches.
pub open spec fn settings_match_config(s: Settings, c: Config) -> bool {
    &&& s.enable_logging == c.logging.enabled
    &&& s.use_custom_paths == c.executables.enabled
    &&& s.mpv_path@ == text_or(c.executables.mpv, "mpv"@)
    &&& s.ytdlp_path@ == text_or(c.executables.ytdlp, "yt-dlp"@)
    &&& s.ffmpeg_path@ == text_or(c.executables.ffmpeg, "ffmpeg"@)
    &&& s.deno_path@ == text_or(c.executables.deno, "deno"@)
    &&& s.log_path == c.logging.path
    &&& if !c.cookies.enabled {
        s.cookie_mode == CookieMode::Off && s.cookie_file is None && s.browser_name is None
    } else {
        match c.cookies.source {
            CookieSource::Off => s.cookie_mode == CookieMode::Off && s.cookie_file is None
                && s.browser_name is None,
            CookieSource::Netscape(p) => s.cookie_mode == CookieMode::File(p) && s.cookie_file
                == Some(p) && s.browser_name is None,
            CookieSource::Json(p) => s.cookie_mode == CookieMode::File(p) && s.cookie_file == Some(
                p,
            ) && s.browser_name is None,
            CookieSource::Browser(n) => s.cookie_mode == CookieMode::Browser(n)
                && s.browser_name == Some(n) && s.cookie_file is None,
        }
    }
}

/// The path of `o`, or the plain name `d`.
fn path_or(o: Option<String>, d: &str) -> (r: String)
    ensures
        r@ == text_or(o, d@),
{
    match o {
        Some(p) => p,
        None => String::from_str(d),
    }
}

impl Settings {
    /// The settings a configuration describes.
    pub fn from_config(config: Config) -> (s: Settings)
        ensures
            settings_match_config(s, config),
    {
        let ghost c = config;
        let mut s = Settings::default();
        s.enable_logging = config.logging.enabled;
        s.use_custom_paths = config.executables.enabled;
        s.mpv_path = path_or(config.executables.mpv, "mpv");
        s.ytdlp_path = path_or(config.executables.ytdlp, "yt-dlp");
        s.ffmpeg_path = path_or(config.executables.ffmpeg, "ffmpeg");
        s.deno_path = path_or(config.executables.deno, "deno");
        if !config.cookies.enabled {
            s.cookie_mode = CookieMode::Off;
        } else {
            match config.cookies.source {
                CookieSource::Off => {
                    s.cookie_mode = CookieMode::Off;
                },
                CookieSource::Netscape(path) => {
                    s.cookie_mode = CookieMode::File(path.clone());
                    s.cookie_file = Some(path);
                },
                CookieSource::Json(path) => {
                    s.cookie_mode = CookieMode::File(path.clone());
                    s.cookie_file = Some(path);
                },
                CookieSource::Browser(name) => {
                    s.cookie_mode = CookieMode::Browser(name.clone());
                    s.browser_name = Some(name);
                },
            }
        }
        s.log_path = config.logging.path;
        s
    }

    /// Replaces these settings with the ones `config` describes.
    pub fn update_from_config(&mut self, config: Config)
        ensures
            settings_match_config(*final(self), config),
    {
        *self = Settings::from_config(config);
    }

    /// The `mpv` command: the configured path when custom paths are on,
    /// else `mpv`.
    pub fn mpv_cmd(&self) -> (s: String)
        ensures
            s@ == if self.use_custom_paths { self.mpv_path@ } else { "mpv"@ },
    {
        if self.use_custom_paths {
            self.mpv_path.clone()
        } else {
            String::from_str("mpv")
        }
    }

    /// The `yt-dlp` command: the configured path when custom paths are on,
    /// else `yt-dlp`.
    pub fn ytdlp_cmd(&self) -> (s: String)
        ensures
            s@ == if self.use_custom_paths { self.ytdlp_path@ } else { "yt-dlp"@ },
    {
        if self.use_custom_paths {
            self.ytdlp_path.clone()
        } else {
            String::from_str("yt-dlp")
        }
    }

    /// The `ffmpeg` command: the configured path when custom paths are on,
    /// else `ffmpeg`.
    pub fn ffmpeg_cmd(&self) -> (s: String)
        ensures
            s@ == if self.use_custom_paths { self.ffmpeg_path@ } else { "ffmpeg"@ },
    {
        if self.use_custom_paths {
            self.ffmpeg_path.clone()
        } else {
            String::from_str("ffmpeg")
        }
    }

    /// The `deno` command: the configured path when custom paths are on,
    /// else `deno`.
    pub fn deno_cmd(&self) -> (s: String)
        ensures
            s@ == if self.use_custom_paths { self.deno_path@ } else { "deno"@ },
    {
        if self.use_custom_paths {
            self.deno_path.clone()
        } else {
            String::from_str("deno")
        }
    }
}

/// The executable section that stores `s`: a path is written only where it
/// differs from the plain command name.
pub open spec fn executables_match_settings(e: Executables, s: Settings) -> bool {
    &&& e.enabled == s.use_custom_paths
    &&& (if s.mpv_path@ == "mpv"@ { e.mpv is None } else { e.mpv == Some(s.mpv_path) })
    &&& (if s.ytdlp_path@ == "yt-dlp"@ { e.ytdlp is None } else { e.ytdlp == Some(s.ytdlp_path) })
    &&& (if s.ffmpeg_path@ == "ffmpeg"@ {
        e.ffmpeg is None
    } else {
        e.ffmpeg == Some(s.ffmpeg_path)
    })
    &&& (if s.deno_path@ == "deno"@ { e.deno is None } else { e.deno == Some(s.deno_path) })
}

/// The cookie section that stores a cookie mode: enabled unless the mode is
/// off; a cookie file is stored as a Netscape file.
pub open spec fn cookies_match_mode(c: Cookies, m: CookieMode) -> bool {
    &&& c.enabled == !(m == CookieMode::Off)
    &&& match m {
        CookieMode::Off => c.source == CookieSource::Off,
        CookieMode::Unsetted => c.source == CookieSource::Off,
        CookieMode::File(p) => c.source == CookieSource::Netscape(p),
        CookieMode::Browser(b) => c.source == CookieSource::Browser(b),
    }
}

/// A path option stored only when it differs from the plain name.
fn stored_path(path: &String, plain: &str) -> (r: Option<String>)
    ensures
        if path@ == plain@ { r is None } else { r == Some(*path) },
{
    let a = chars_of(path.as_str());
    let b = chars_of(plain);
    if same_chars(a.as_slice(), b.as_slice()) {
        None
    } else {
        Some(path.clone())
    }
}

/// The executable section that stores the settings' executable paths.
pub fn executables_of(s: &Settings) -> (e: Executables)
    ensures
        executables_match_settings(e, *s),
{
    Executables {
        enabled: s.use_custom_paths,
        mpv: stored_path(&s.mpv_path, "mpv"),
        ytdlp: stored_path(&s.ytdlp_path, "yt-dlp"),
        ffmpeg: stored_path(&s.ffmpeg_path, "ffmpeg"),
        deno: stored_path(&s.deno_path, "deno"),
    }
}

/// The cookie section that stores a cookie mode.
pub fn cookies_of(m: &CookieMode) -> (c: Cookies)
    ensures
        cookies_match_mode(c, *m),
{
    match m {
        CookieMode::Off => Cookies { enabled: false, source: CookieSource::Off },
        CookieMode::Unsetted => Cookies { enabled: true, source: CookieSource::Off },
        CookieMode::File(p) => Cookies { enabled: true, source: CookieSource::Netscape(p.clone()) },
        CookieMode::Browser(b) => Cookies {
            enabled: true,
            source: CookieSource::Browser(b.clone()),
        },
    }
}

/// Saving the settings into a configuration and reading them back gives the
/// same switches and paths, and the same cookie mode unless it was switched
/// on with no source (that one reads back as off).
pub proof fn law_settings_round_trip(s: Settings, c: Config, back: Settings)
    requires
        executables_match_settings(c.executables, s),
        cookies_match_mode(c.cookies, s.cookie_mode),
        c.logging.enabled == s.enable_logging,
        c.logging.path == s.log_path,
        settings_match_config(back, c),
    ensures
        back.enable_logging == s.enable_logging,
        back.use_custom_paths == s.use_custom_paths,
        back.mpv_path@ == s.mpv_path@,
        back.ytdlp_path@ == s.ytdlp_path@,
        back.ffmpeg_path@ == s.ffmpeg_path@,
        back.deno_path@ == s.deno_path@,
        back.log_path == s.log_path,
        s.cookie_mode != CookieMode::Unsetted ==> back.cookie_mode == s.cookie_mode,
        s.cookie_mode == CookieMode::Unsetted ==> back.cookie_mode == CookieMode::Off,
{
}

} // verus!
