//! The `mpv` player: the command lines that start it and the JSON commands
//! sent to its control socket.
use vstd::prelude::*;
use crate::text::{decimal, chars_of, contains, occurs_at};
use crate::yt::{texts, first_occurrence, find_text};
use crate::config::{Settings, CookieMode};
use crate::local::{is_audio_path, is_audio_path_text};

verus! {

broadcast use vstd::string::group_string_axioms;

/// The control socket `mpv` is started with for the process `pid`: a named
/// pipe on Windows, a socket under `/tmp` elsewhere.
pub open spec fn socket_text(windows: bool, pid: nat) -> Seq<char> {
    if windows {
        "\\\\.\\pipe\\rataplay-mpv-"@ + decimal(pid)
    } else {
        "/tmp/rataplay-mpv-"@ + decimal(pid) + ".sock"@
    }
}

/// The option that hands the cookie setting on to `mpv`'s `yt-dlp` hook.
pub open spec fn cookie_args(mode: CookieMode) -> Seq<Seq<char>> {
    match mode {
        CookieMode::Browser(b) => seq!["--ytdl-raw-options=cookies-from-browser="@ + b@],
        CookieMode::File(p) => seq!["--ytdl-raw-options=cookies="@ + p@],
        _ => Seq::empty(),
    }
}

/// Where a play target names a format: `url::format`.
pub open spec fn split_play_target(t: Seq<char>) -> (Seq<char>, Option<Seq<char>>) {
    match first_occurrence(t, "::"@) {
        Some(i) => (t.take(i), Some(t.skip(i + 2))),
        None => (t, None),
    }
}

/// The user agent options: the agent, and no second lookup by `yt-dlp`.
pub open spec fn agent_args(user_agent: Option<Seq<char>>) -> Seq<Seq<char>> {
    match user_agent {
        Some(u) => seq!["--user-agent="@ + u, "--ytdl=no"@],
        None => Seq::empty(),
    }
}

/// How a video is shown: in the terminal as text art, quietly, with a
/// short cache (no window for sound files); or in an idle full-screen
/// window (with a wave picture for sound files).
pub open spec fn display_args(in_terminal: bool, audio: bool) -> Seq<Seq<char>> {
    if in_terminal {
        seq!["--vo=tct"@, "--really-quiet"@] + (if audio {
            seq!["--force-window=no"@]
        } else {
            Seq::empty()
        }) + seq![
            "--cache=yes"@,
            "--cache-secs=2"@,
            "--demuxer-max-bytes=10M"@,
            "--demuxer-readahead-secs=2"@,
        ]
    } else {
        seq!["--idle=yes"@, "--force-window=yes"@, "--fs"@] + (if audio {
            seq!["--lavfi-complex=[aid1]asplit[ao][v];[v]showwaves=s=1280x720:mode=line:colors=cyan[vo]"@]
        } else {
            Seq::empty()
        })
    }
}

/// The format option, when the target names a format.
pub open spec fn format_args(format: Option<Seq<char>>) -> Seq<Seq<char>> {
    match format {
        Some(f) => seq!["--ytdl-format="@ + f],
        None => Seq::empty(),
    }
}

/// The arguments `mpv` plays a video with: the user agent options, the
/// control socket, the display options, the cookie option, the format when
/// the target names one, and the address.
pub open spec fn video_arg_list(
    target: Seq<char>,
    in_terminal: bool,
    user_agent: Option<Seq<char>>,
    mode: CookieMode,
    socket: Seq<char>,
) -> Seq<Seq<char>> {
    let (url, format) = split_play_target(target);
    agent_args(user_agent) + seq!["--input-ipc-server="@ + socket] + display_args(
        in_terminal,
        is_audio_path_text(url),
    ) + cookie_args(mode) + format_args(format) + seq![url]
}

/// No entry of `x + y` is `v` when none of `x` and none of `y` is.
proof fn lemma_none_in_concat(x: Seq<Seq<char>>, y: Seq<Seq<char>>, v: Seq<char>)
    requires
        !x.contains(v),
        !y.contains(v),
    ensures
        !(x + y).contains(v),
{
    assert forall|i: int| 0 <= i < (x + y).len() implies (x + y)[i] != v by {
        if i < x.len() {
            assert((x + y)[i] == x[i]);
        } else {
            assert((x + y)[i] == y[i - x.len()]);
        }
    }
}

/// A text whose third character is not `v` is not `--vo=tct`.
proof fn lemma_not_terminal_output(t: Seq<char>)
    requires
        t.len() > 2 && t[2] != 'v',
    ensures
        t != "--vo=tct"@,
{
    reveal_strlit("--vo=tct");
    assert("--vo=tct"@[2] == 'v');
}

/// The arguments of `video_arg_list` in their parts: the user agent
/// options, the control socket, the display options, the cookie option, the
/// format option and the address.
proof fn lemma_video_parts(
    target: Seq<char>,
    in_terminal: bool,
    user_agent: Option<Seq<char>>,
    mode: CookieMode,
    socket: Seq<char>,
)
    ensures
        ({
            let (url, format) = split_play_target(target);
            let a = agent_args(user_agent);
            let d = display_args(in_terminal, is_audio_path_text(url));
            let args = video_arg_list(target, in_terminal, user_agent, mode, socket);
            let front = a + seq!["--input-ipc-server="@ + socket] + d + cookie_args(mode) + format_args(format);
            &&& args == front + seq![url]
            &&& args.drop_last() == front
            &&& args[a.len() as int] == "--input-ipc-server="@ + socket
            &&& forall|j: int| 0 <= j < d.len() ==> #[trigger] args[a.len() + 1 + j] == d[j]
        }),
{
    let (url, format) = split_play_target(target);
    let a = agent_args(user_agent);
    let d = display_args(in_terminal, is_audio_path_text(url));
    let args = video_arg_list(target, in_terminal, user_agent, mode, socket);
    let front = a + seq!["--input-ipc-server="@ + socket] + d + cookie_args(mode) + format_args(format);
    assert(args == front + seq![url]);
    assert(args.drop_last() =~= front);
    assert forall|j: int| 0 <= j < d.len() implies #[trigger] args[a.len() + 1 + j] == d[j] by {
        assert(front[a.len() + 1 + j] == d[j]);
    }
}

/// Outside the terminal, no option before the address is `--vo=tct`.
#[verifier::spinoff_prover]
proof fn lemma_window_options(user_agent: Option<Seq<char>>, socket: Seq<char>, audio: bool, mode: CookieMode, format: Option<Seq<char>>)
    ensures
        !(agent_args(user_agent) + seq!["--input-ipc-server="@ + socket] + display_args(false, audio) + cookie_args(mode)
            + format_args(format)).contains("--vo=tct"@),
{
    let v = "--vo=tct"@;
    let a = agent_args(user_agent);
    let ipc = "--input-ipc-server="@ + socket;
    let d = display_args(false, audio);
    let c = cookie_args(mode);
    let f = format_args(format);
    assert(!a.contains(v)) by {
        reveal_strlit("--user-agent=");
        reveal_strlit("--ytdl=no");
        if let Some(u) = user_agent {
            lemma_not_terminal_output("--user-agent="@ + u);
            lemma_not_terminal_output("--ytdl=no"@);
        }
    }
    assert(!seq![ipc].contains(v)) by {
        reveal_strlit("--input-ipc-server=");
        lemma_not_terminal_output(ipc);
    }
    assert(!d.contains(v)) by {
        reveal_strlit("--idle=yes");
        reveal_strlit("--force-window=yes");
        reveal_strlit("--fs");
        reveal_strlit("--vo=tct");
        lemma_not_terminal_output("--idle=yes"@);
        lemma_not_terminal_output("--force-window=yes"@);
        assert("--fs"@ != v) by {
            assert("--fs"@.len() != v.len());
        }
        if audio {
            reveal_strlit("--lavfi-complex=[aid1]asplit[ao][v];[v]showwaves=s=1280x720:mode=line:colors=cyan[vo]");
            lemma_not_terminal_output(
                "--lavfi-complex=[aid1]asplit[ao][v];[v]showwaves=s=1280x720:mode=line:colors=cyan[vo]"@,
            );
        }
    }
    assert(!c.contains(v)) by {
        reveal_strlit("--ytdl-raw-options=cookies-from-browser=");
        reveal_strlit("--ytdl-raw-options=cookies=");
        match mode {
            CookieMode::Browser(b) => lemma_not_terminal_output("--ytdl-raw-options=cookies-from-browser="@ + b@),
            CookieMode::File(p) => lemma_not_terminal_output("--ytdl-raw-options=cookies="@ + p@),
            _ => {},
        }
    }
    assert(!f.contains(v)) by {
        reveal_strlit("--ytdl-format=");
        if let Some(x) = format {
            lemma_not_terminal_output("--ytdl-format="@ + x);
        }
    }
    lemma_none_in_concat(a, seq![ipc], v);
    lemma_none_in_concat(a + seq![ipc], d, v);
    lemma_none_in_concat(a + seq![ipc] + d, c, v);
    lemma_none_in_concat(a + seq![ipc] + d + c, f, v);
}

/// How `mpv` is asked to show a video: in the terminal it gets the
/// terminal video output `--vo=tct`, runs quietly and keeps a short cache;
/// in a window it is idle, forces a full-screen window and never gets the
/// terminal output (no option before the address is `--vo=tct`). Either
/// way the control socket is given and the address comes last.
pub proof fn law_video_display(
    target: Seq<char>,
    in_terminal: bool,
    user_agent: Option<Seq<char>>,
    mode: CookieMode,
    socket: Seq<char>,
)
    ensures
        ({
            let args = video_arg_list(target, in_terminal, user_agent, mode, socket);
            &&& args.len() > 0 && args.last() == split_play_target(target).0
            &&& args.contains("--input-ipc-server="@ + socket)
            &&& in_terminal ==> {
                &&& args.contains("--vo=tct"@)
                &&& args.contains("--really-quiet"@)
                &&& args.contains("--cache=yes"@)
                &&& args.contains("--cache-secs=2"@)
                &&& args.contains("--demuxer-max-bytes=10M"@)
                &&& args.contains("--demuxer-readahead-secs=2"@)
            }
            &&& !in_terminal ==> {
                &&& !args.drop_last().contains("--vo=tct"@)
                &&& args.contains("--idle=yes"@)
                &&& args.contains("--force-window=yes"@)
                &&& args.contains("--fs"@)
            }
        }),
{
    lemma_video_parts(target, in_terminal, user_agent, mode, socket);
    let (url, format) = split_play_target(target);
    let audio = is_audio_path_text(url);
    let a = agent_args(user_agent);
    let d = display_args(in_terminal, audio);
    let args = video_arg_list(target, in_terminal, user_agent, mode, socket);
    let base: int = a.len() as int + 1;
    assert(args[a.len() as int] == "--input-ipc-server="@ + socket);
    if in_terminal {
        let q: int = if audio { 1 } else { 0 };
        assert(d[0] == "--vo=tct"@ && d[1] == "--really-quiet"@);
        assert(d[2 + q] == "--cache=yes"@ && d[3 + q] == "--cache-secs=2"@);
        assert(d[4 + q] == "--demuxer-max-bytes=10M"@ && d[5 + q] == "--demuxer-readahead-secs=2"@);
        assert(args[base + 0] == d[0]);
        assert(args[base + 1] == d[1]);
        assert(args[base + (2 + q)] == d[2 + q]);
        assert(args[base + (3 + q)] == d[3 + q]);
        assert(args[base + (4 + q)] == d[4 + q]);
        assert(args[base + (5 + q)] == d[5 + q]);
    } else {
        assert(d[0] == "--idle=yes"@ && d[1] == "--force-window=yes"@ && d[2] == "--fs"@);
        assert(args[base + 0] == d[0]);
        assert(args[base + 1] == d[1]);
        assert(args[base + 2] == d[2]);
        lemma_window_options(user_agent, socket, audio, mode, format);
    }
}

/// The arguments `mpv` plays sound only with: no picture, the best sound,
/// the control socket, idle at the end, the cookie option and the address.
pub open spec fn audio_arg_list(url: Seq<char>, mode: CookieMode, socket: Seq<char>) -> Seq<Seq<char>> {
    seq!["--no-video"@, "--ytdl-format=bestaudio/best"@, "--input-ipc-server="@ + socket, "--idle=yes"@]
        + cookie_args(mode) + seq![url]
}

/// Playing sound only asks `mpv` for no picture and the best sound, gives
/// it the control socket and keeps it idle at the end; the address comes
/// last.
pub proof fn law_audio_args(url: Seq<char>, mode: CookieMode, socket: Seq<char>)
    ensures
        ({
            let args = audio_arg_list(url, mode, socket);
            &&& args.len() > 0 && args.last() == url
            &&& args[0] == "--no-video"@
            &&& args[1] == "--ytdl-format=bestaudio/best"@
            &&& args[2] == "--input-ipc-server="@ + socket
            &&& args[3] == "--idle=yes"@
        }),
{
}

/// The control socket for the process `pid`.
pub fn player_socket(windows: bool, pid: u32) -> (r: String)
    ensures
        r@ == socket_text(windows, pid as nat),
{
    let mut r = if windows {
        String::from_str("\\\\.\\pipe\\rataplay-mpv-")
    } else {
        String::from_str("/tmp/rataplay-mpv-")
    };
    crate::text::push_decimal(&mut r, pid as u64);
    if !windows {
        r.append(".sock");
    }
    r
}

/// Appends the cookie option for `mode` to `v`.
fn push_cookie_args(v: &mut Vec<String>, mode: &CookieMode)
    ensures
        texts(final(v)@) == texts(old(v)@) + cookie_args(*mode),
{
    let ghost before = texts(v@);
    match mode {
        CookieMode::Browser(b) => {
            let mut a = String::from_str("--ytdl-raw-options=cookies-from-browser=");
            a.append(b.as_str());
            v.push(a);
        },
        CookieMode::File(p) => {
            let mut a = String::from_str("--ytdl-raw-options=cookies=");
            a.append(p.as_str());
            v.push(a);
        },
        _ => {},
    }
    assert(texts(v@) =~= before + cookie_args(*mode));
}

/// Splits a play target into the address and the format it names.
pub fn play_target(target: &str) -> (r: (String, Option<String>))
    ensures
        (r.0@, crate::text::opt_text(r.1)) == split_play_target(target@),
{
    let c = chars_of(target);
    let sep = chars_of("::");
    proof {
        reveal_strlit("::");
    }
    match find_text(c.as_slice(), sep.as_slice()) {
        Some(i) => {
            let mut a: Vec<char> = Vec::new();
            let mut j: usize = 0;
            while j < i
                invariant
                    j <= i,
                    i + 2 <= c.len(),
                    a@ == c@.take(j as int),
                decreases i - j,
            {
                a.push(c[j]);
                j = j + 1;
                assert(a@ =~= c@.take(j as int));
            }
            let mut b: Vec<char> = Vec::new();
            let mut k: usize = i + 2;
            while k < c.len()
                invariant
                    i + 2 <= k <= c.len(),
                    b@ == c@.subrange(i + 2, k as int),
                decreases c.len() - k,
            {
                b.push(c[k]);
                k = k + 1;
                assert(b@ =~= c@.subrange(i + 2, k as int));
            }
            assert(b@ =~= c@.skip(i + 2));
            (crate::text::string_of(a.as_slice()), Some(crate::text::string_of(b.as_slice())))
        },
        None => (String::from_str(target), None),
    }
}

/// The arguments that play `target` (an address, or `address::format`)
/// as a video (see `video_arg_list`).
pub fn video_args(target: &str, in_terminal: bool, user_agent: Option<&str>, settings: &Settings, socket: &str) -> (args: Vec<String>)
    ensures
        texts(args@) == video_arg_list(
            target@,
            in_terminal,
            match user_agent {
                Some(u) => Some(u@),
                None => None,
            },
            settings.cookie_mode,
            socket@,
        ),
{
    let ghost ua = match user_agent {
        Some(u) => Some(u@),
        None => None::<Seq<char>>,
    };
    let (url, format) = play_target(target);
    let mut v: Vec<String> = Vec::new();
    if let Some(u) = user_agent {
        let mut a = String::from_str("--user-agent=");
        a.append(u);
        v.push(a);
        v.push(String::from_str("--ytdl=no"));
    }
    assert(texts(v@) =~= agent_args(ua));
    let mut ipc = String::from_str("--input-ipc-server=");
    ipc.append(socket);
    v.push(ipc);
    let ghost p1 = agent_args(ua) + seq!["--input-ipc-server="@ + socket@];
    assert(texts(v@) =~= p1);
    let audio = is_audio_path(url.as_str());
    if in_terminal {
        v.push(String::from_str("--vo=tct"));
        v.push(String::from_str("--really-quiet"));
        if audio {
            v.push(String::from_str("--force-window=no"));
        }
        v.push(String::from_str("--cache=yes"));
        v.push(String::from_str("--cache-secs=2"));
        v.push(String::from_str("--demuxer-max-bytes=10M"));
        v.push(String::from_str("--demuxer-readahead-secs=2"));
    } else {
        v.push(String::from_str("--idle=yes"));
        v.push(String::from_str("--force-window=yes"));
        v.push(String::from_str("--fs"));
        if audio {
            v.push(
                String::from_str(
                    "--lavfi-complex=[aid1]asplit[ao][v];[v]showwaves=s=1280x720:mode=line:colors=cyan[vo]",
                ),
            );
        }
    }
    let ghost p2 = p1 + display_args(in_terminal, audio);
    assert(texts(v@) =~= p2);
    push_cookie_args(&mut v, &settings.cookie_mode);
    let ghost p3 = p2 + cookie_args(settings.cookie_mode);
    assert(texts(v@) =~= p3);
    if let Some(f) = &format {
        let mut a = String::from_str("--ytdl-format=");
        a.append(f.as_str());
        v.push(a);
    }
    let ghost p4 = p3 + format_args(crate::text::opt_text(format));
    assert(texts(v@) =~= p4);
    v.push(url);
    assert(texts(v@) =~= p4.push(split_play_target(target@).0));
    assert(p4.push(split_play_target(target@).0) =~= video_arg_list(
        target@,
        in_terminal,
        ua,
        settings.cookie_mode,
        socket@,
    ));
    v
}

/// The arguments that play `url` as sound only (see `audio_arg_list`).
pub fn audio_args(url: &str, settings: &Settings, socket: &str) -> (args: Vec<String>)
    ensures
        texts(args@) == audio_arg_list(url@, settings.cookie_mode, socket@),
{
    let mut v: Vec<String> = Vec::new();
    v.push(String::from_str("--no-video"));
    v.push(String::from_str("--ytdl-format=bestaudio/best"));
    let mut ipc = String::from_str("--input-ipc-server=");
    ipc.append(socket);
    v.push(ipc);
    v.push(String::from_str("--idle=yes"));
    push_cookie_args(&mut v, &settings.cookie_mode);
    let ghost before_url = texts(v@);
    v.push(String::from_str(url));
    assert(texts(v@) =~= before_url.push(url@));
    assert(texts(v@) =~= audio_arg_list(url@, settings.cookie_mode, socket@));
    v
}

/// The command that toggles pause.
pub open spec fn toggle_pause_text() -> Seq<char> {
    "{\"command\": [\"cycle\", \"pause\"]}\n"@
}

/// The command that pauses (`true`) or resumes (`false`) playback.
pub open spec fn set_pause_text(paused: bool) -> Seq<char> {
    if paused {
        "{\"command\": [\"set_property\", \"pause\", true]}\n"@
    } else {
        "{\"command\": [\"set_property\", \"pause\", false]}\n"@
    }
}

/// The decimal notation of a whole number with its sign.
pub open spec fn signed_decimal(n: int) -> Seq<char> {
    if n < 0 {
        seq!['-'] + decimal((-n) as nat)
    } else {
        decimal(n as nat)
    }
}

/// The command that seeks `seconds` from the current position, showing
/// the progress bar.
pub open spec fn seek_text(seconds: int) -> Seq<char> {
    "{\"command\": [\"osd-msg-bar\", \"seek\", "@ + signed_decimal(seconds) + ", \"relative\"]}\n"@
}

/// The command that seeks `seconds` from the current position quietly.
pub open spec fn quiet_seek_text(seconds: int) -> Seq<char> {
    "{\"command\": [\"seek\", "@ + signed_decimal(seconds) + ", \"relative\"]}\n"@
}

/// The request for the current position (answered with request id 1).
pub open spec fn position_request_text() -> Seq<char> {
    "{\"command\": [\"get_property\", \"time-pos\"], \"request_id\": 1}\n"@
}

/// The request for the length (answered with request id 2).
pub open spec fn duration_request_text() -> Seq<char> {
    "{\"command\": [\"get_property\", \"duration\"], \"request_id\": 2}\n"@
}

/// The command that toggles pause.
pub fn toggle_pause_command() -> (r: String)
    ensures
        r@ == toggle_pause_text(),
{
    String::from_str("{\"command\": [\"cycle\", \"pause\"]}\n")
}

/// The command that pauses or resumes playback.
pub fn set_pause_command(paused: bool) -> (r: String)
    ensures
        r@ == set_pause_text(paused),
{
    if paused {
        String::from_str("{\"command\": [\"set_property\", \"pause\", true]}\n")
    } else {
        String::from_str("{\"command\": [\"set_property\", \"pause\", false]}\n")
    }
}

/// Appends `n` with its sign to `out`.
pub fn push_signed(out: &mut String, n: i32)
    ensures
        final(out)@ == old(out)@ + signed_decimal(n as int),
{
    if n < 0 {
        crate::text::push_char(out, '-');
        let m: u64 = (0i64 - (n as i64)) as u64;
        crate::text::push_decimal(out, m);
        assert(old(out)@.push('-') + decimal(m as nat) =~= old(out)@ + signed_decimal(n as int));
    } else {
        crate::text::push_decimal(out, n as u64);
    }
}

/// The command that seeks `seconds`, showing the progress bar.
pub fn seek_command(seconds: i32) -> (r: String)
    ensures
        r@ == seek_text(seconds as int),
{
    let mut r = String::from_str("{\"command\": [\"osd-msg-bar\", \"seek\", ");
    push_signed(&mut r, seconds);
    r.append(", \"relative\"]}\n");
    r
}

/// The command that seeks `seconds` quietly.
pub fn quiet_seek_command(seconds: i32) -> (r: String)
    ensures
        r@ == quiet_seek_text(seconds as int),
{
    let mut r = String::from_str("{\"command\": [\"seek\", ");
    push_signed(&mut r, seconds);
    r.append(", \"relative\"]}\n");
    r
}

/// The request for the current position.
pub fn position_request() -> (r: String)
    ensures
        r@ == position_request_text(),
{
    String::from_str("{\"command\": [\"get_property\", \"time-pos\"], \"request_id\": 1}\n")
}

/// The request for the length.
pub fn duration_request() -> (r: String)
    ensures
        r@ == duration_request_text(),
{
    String::from_str("{\"command\": [\"get_property\", \"duration\"], \"request_id\": 2}\n")
}

/// A command as written to the socket: ended by a line feed.
pub open spec fn line_ended(cmd: Seq<char>) -> Seq<char> {
    if cmd.len() > 0 && cmd.last() == '\n' {
        cmd
    } else {
        cmd.push('\n')
    }
}

/// `cmd` ended by a line feed, adding one only when it lacks it.
pub fn command_line(cmd: &str) -> (r: String)
    ensures
        r@ == line_ended(cmd@),
{
    let c = chars_of(cmd);
    let mut r = String::from_str(cmd);
    if !(c.len() > 0 && c[c.len() - 1] == '\n') {
        crate::text::push_char(&mut r, '\n');
    }
    r
}

} // verus!
