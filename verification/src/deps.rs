//! Whether the programs the application runs are there: `yt-dlp` (with
//! its version) and `mpv`.
use vstd::prelude::*;
use crate::text::trim;
use crate::config::Settings;
use crate::yt::trim_str;

verus! {

broadcast use vstd::string::group_string_axioms;

/// What running a program with `--version` gave.
pub enum VersionProbe {
    /// The program could not be run.
    NotRun,
    /// It ran: whether it exited successfully, its exit status as text,
    /// and its output read as UTF-8 (or why it could not be).
    Ran { success: bool, status: String, stdout: Result<String, String> },
}

/// The programs found.
pub struct DependencyStatus {
    pub yt_dlp_version: String,
    pub mpv_installed: bool,
}

/// The version `yt-dlp` (run as `cmd`) reported, trimmed, or why there is none.
pub open spec fn ytdlp_outcome(cmd: Seq<char>, p: VersionProbe) -> Result<Seq<char>, Seq<char>> {
    match p {
        VersionProbe::NotRun => Err(
            "Failed to execute yt-dlp at '"@ + cmd + "'. Is it installed and in your PATH?"@,
        ),
        VersionProbe::Ran { success, status, stdout } => if !success {
            Err("yt-dlp command failed with status: "@ + status@)
        } else {
            match stdout {
                Ok(out) => Ok(trim(out@)),
                Err(e) => Err(e@),
            }
        },
    }
}

/// `mpv` ran and exited successfully.
pub open spec fn mpv_outcome(p: VersionProbe) -> bool {
    match p {
        VersionProbe::NotRun => false,
        VersionProbe::Ran { success, .. } => success,
    }
}

/// The `yt-dlp` command of the settings.
pub open spec fn ytdlp_command(s: Settings) -> Seq<char> {
    if s.use_custom_paths {
        s.ytdlp_path@
    } else {
        "yt-dlp"@
    }
}

/// The version of `yt-dlp` from its probe (see `ytdlp_outcome`).
pub fn check_yt_dlp(settings: &Settings, probe: &VersionProbe) -> (r: Result<String, String>)
    ensures
        match r {
            Ok(v) => ytdlp_outcome(ytdlp_command(*settings), *probe) == Ok::<Seq<char>, Seq<char>>(v@),
            Err(e) => ytdlp_outcome(ytdlp_command(*settings), *probe) == Err::<Seq<char>, Seq<char>>(e@),
        },
{
    match probe {
        VersionProbe::NotRun => {
            let mut m = String::from_str("Failed to execute yt-dlp at '");
            let cmd = settings.ytdlp_cmd();
            m.append(cmd.as_str());
            m.append("'. Is it installed and in your PATH?");
            Err(m)
        },
        VersionProbe::Ran { success, status, stdout } => {
            if !*success {
                let mut m = String::from_str("yt-dlp command failed with status: ");
                m.append(status.as_str());
                Err(m)
            } else {
                match stdout {
                    Ok(out) => Ok(trim_str(out.as_str())),
                    Err(e) => Err(e.clone()),
                }
            }
        },
    }
}

/// Whether `mpv` is there (see `mpv_outcome`).
pub fn check_mpv(probe: &VersionProbe) -> (b: bool)
    ensures
        b == mpv_outcome(*probe),
{
    match probe {
        VersionProbe::NotRun => false,
        VersionProbe::Ran { success, .. } => *success,
    }
}

/// The programs found from the probes of `yt-dlp` and `mpv`: an error when
/// `yt-dlp` gave no version, else its version and whether `mpv` is there.
pub fn check_dependencies(settings: &Settings, yt_dlp: VersionProbe, mpv: VersionProbe) -> (r: Result<DependencyStatus, String>)
    ensures
        match ytdlp_outcome(ytdlp_command(*settings), yt_dlp) {
            Ok(v) => r matches Ok(s) && s.yt_dlp_version@ == v && s.mpv_installed == mpv_outcome(mpv),
            Err(e) => r matches Err(m) && m@ == e,
        },
{
    let version = match check_yt_dlp(settings, &yt_dlp) {
        Ok(v) => v,
        Err(e) => return Err(e),
    };
    let mpv_installed = check_mpv(&mpv);
    Ok(DependencyStatus { yt_dlp_version: version, mpv_installed })
}

} // verus!
