//! The player's life: starting what the menus asked for, the media keys,
//! the reports of the player, and the stream looked up for the terminal.
use vstd::prelude::*;
use crate::text::opt_text;
use crate::state::{AppAction, Effect};
use crate::app::{App, Playback, text_is, message, message_of, stopped, stop_effects};
use crate::player::{
    set_pause_text, set_pause_command, toggle_pause_text, toggle_pause_command, quiet_seek_text,
    quiet_seek_command, position_request, position_request_text, duration_request, duration_request_text,
};
use crate::widgets::{duration_text, format_duration};
use crate::yt::{split_target, split_terminal_target};

verus! {

broadcast use vstd::string::group_string_axioms;

/// A media key of the system.
#[derive(Clone, Copy, Debug, PartialEq, Eq, Structural)]
pub enum MediaEvent {
    Play,
    Pause,
    Toggle,
    Next,
    Previous,
    Stop,
}

/// `cmd` written to the player when one plays, then, when `notice` is
/// some, the media controls told whether something plays.
pub open spec fn commands_then(e: Seq<Effect>, playing: bool, cmd: Seq<char>, notice: Option<bool>) -> bool {
    let k: int = if playing { 1 } else { 0 };
    &&& e.len() == k + (if notice is Some { 1int } else { 0int })
    &&& playing ==> (e[0] matches Effect::PlayerCommand(c) && c@ == cmd)
    &&& notice matches Some(p) ==> e[k] == Effect::MediaPlaying(p)
}

/// Only the pause flag of the player changes, to `paused`.
pub open spec fn pause_set(a: App, b: App, paused: bool) -> bool {
    b == App { playback: Playback { is_paused: paused, ..a.playback }, ..a }
}

/// What a media key does: play and pause set the player's pause and tell
/// the media controls; toggle flips it; next and previous seek ten seconds
/// quietly; stop stops the player.
pub open spec fn media_handled(a: App, b: App, e: Seq<Effect>, ev: MediaEvent) -> bool {
    let playing = a.playback.playing;
    match ev {
        MediaEvent::Play => pause_set(a, b, false) && commands_then(e, playing, set_pause_text(false), Some(true)),
        MediaEvent::Pause => pause_set(a, b, true) && commands_then(e, playing, set_pause_text(true), Some(false)),
        MediaEvent::Toggle => pause_set(a, b, !a.playback.is_paused) && commands_then(
            e,
            playing,
            toggle_pause_text(),
            Some(a.playback.is_paused),
        ),
        MediaEvent::Next => b == a && commands_then(e, playing, quiet_seek_text(10), None),
        MediaEvent::Previous => b == a && commands_then(e, playing, quiet_seek_text(-10), None),
        MediaEvent::Stop => stopped(a, b) && stop_effects(e),
    }
}

/// The player exited by itself: as after a stop, without stopping it.
pub open spec fn playback_exited(a: App, b: App, e: Seq<Effect>) -> bool {
    if a.playback.playing {
        stopped(a, b) && e == seq![Effect::MediaPlaying(false)]
    } else {
        b == a && e.len() == 0
    }
}

/// The position and the length of what plays, in whole seconds: once the
/// length is known, the playback bar shows both and whether the end is near.
pub open spec fn progress_shown(a: App, b: App, position: u64, total: u64, has_total: bool, finishing: bool) -> bool {
    if has_total {
        &&& b == App {
            playback: Playback { duration_str: b.playback.duration_str, is_finishing: finishing, ..a.playback },
            ..a
        }
        &&& text_is(b.playback.duration_str, duration_text(position as nat) + "/"@ + duration_text(total as nat))
    } else {
        b == a
    }
}

/// While something plays unpaused, its position and its length are asked for.
pub open spec fn polled(a: App, e: Seq<Effect>) -> bool {
    if a.playback.playing && !a.playback.is_paused {
        &&& e.len() == 2
        &&& e[0] matches Effect::PlayerCommand(c) && c@ == position_request_text()
        &&& e[1] matches Effect::PlayerCommand(c) && c@ == duration_request_text()
    } else {
        e.len() == 0
    }
}

/// The terminal stream lookup seems two percent further on each tick, up
/// to ninety-five percent.
pub open spec fn loading_advanced(p: u32) -> u32 {
    if p + 2 > 95 {
        95
    } else {
        (p + 2) as u32
    }
}

/// The answer of the terminal stream lookup, taken while it is waited for:
/// the target is ready (all done), or the error is kept (nothing done).
pub open spec fn terminal_answered(a: App, b: App, r: Result<String, String>) -> bool {
    if a.playback.terminal_loading {
        match r {
            Ok(url) => b == App {
                playback: Playback { terminal_ready_url: Some(url), terminal_loading_progress: 100, ..a.playback },
                ..a
            },
            Err(err) => b == App {
                playback: Playback { terminal_loading_error: Some(err), terminal_loading_progress: 0, ..a.playback },
                ..a
            },
        }
    } else {
        b == a
    }
}

/// A playback that the menus asked for: sound only or not, the address
/// and the title.
pub struct PlayRequest {
    pub audio: bool,
    pub url: String,
    pub title: String,
}

/// Taking the playback asked for: any player is stopped first; watching
/// and listening are handed on, nothing else is.
pub open spec fn pending_taken(a: App, b: App, r: Option<PlayRequest>, e: Seq<Effect>) -> bool {
    match a.pending_action {
        Some((act, url, title)) => {
            &&& stopped(App { pending_action: None, ..a }, b)
            &&& stop_effects(e)
            &&& match act {
                AppAction::WatchExternal => r matches Some(p) && !p.audio && p.url == url && p.title == title,
                AppAction::ListenAudio => r matches Some(p) && p.audio && p.url == url && p.title == title,
                _ => r is None,
            }
        },
        None => b == a && r is None && e.len() == 0,
    }
}

/// The state once the player was started for `title`.
pub open spec fn playback_began(a: App, b: App, e: Seq<Effect>, title: String, audio: bool) -> bool {
    &&& b == App {
        playback: Playback { playing: true, title: Some(title), ..a.playback },
        status_message: b.status_message,
        ..a
    }
    &&& text_is(b.status_message, if audio { "Playing audio..."@ } else { "Playing externally..."@ })
    &&& e == seq![Effect::MediaPlaying(true)]
}

/// What a media key does while the terminal player has the screen: the
/// command for the player, whether to tell the media controls that
/// something plays, and whether to stop the player.
pub struct TerminalMediaReply {
    pub command: Option<String>,
    pub playing: Option<bool>,
    pub stop: bool,
}

/// The reply to a media key during terminal playback: play and pause set
/// the pause and tell the media controls, toggle flips it, next and
/// previous seek ten seconds, stop stops the player.
pub open spec fn terminal_reply(ev: MediaEvent, r: TerminalMediaReply) -> bool {
    match ev {
        MediaEvent::Play => opt_text(r.command) == Some(set_pause_text(false)) && r.playing == Some(true) && !r.stop,
        MediaEvent::Pause => opt_text(r.command) == Some(set_pause_text(true)) && r.playing == Some(false) && !r.stop,
        MediaEvent::Toggle => opt_text(r.command) == Some(toggle_pause_text()) && r.playing is None && !r.stop,
        MediaEvent::Next => opt_text(r.command) == Some(quiet_seek_text(10)) && r.playing is None && !r.stop,
        MediaEvent::Previous => opt_text(r.command) == Some(quiet_seek_text(-10)) && r.playing is None && !r.stop,
        MediaEvent::Stop => r.command is None && r.playing is None && r.stop,
    }
}

/// The reply to the media key `ev` during terminal playback.
pub fn terminal_media_reply(ev: MediaEvent) -> (r: TerminalMediaReply)
    ensures
        terminal_reply(ev, r),
{
    match ev {
        MediaEvent::Play => TerminalMediaReply { command: Some(set_pause_command(false)), playing: Some(true), stop: false },
        MediaEvent::Pause => TerminalMediaReply { command: Some(set_pause_command(true)), playing: Some(false), stop: false },
        MediaEvent::Toggle => TerminalMediaReply { command: Some(toggle_pause_command()), playing: None, stop: false },
        MediaEvent::Next => TerminalMediaReply { command: Some(quiet_seek_command(10)), playing: None, stop: false },
        MediaEvent::Previous => TerminalMediaReply { command: Some(quiet_seek_command(-10)), playing: None, stop: false },
        MediaEvent::Stop => TerminalMediaReply { command: None, playing: None, stop: true },
    }
}

impl App {
    /// Starts looking up the stream of `url` for the terminal player: the
    /// lookup is waited for from nothing done, with no answer yet.
    pub fn start_terminal_loading(&mut self, url: String) -> (effects: Vec<Effect>)
        ensures
            *final(self) == (App {
                playback: Playback {
                    terminal_loading: true,
                    terminal_loading_progress: 0,
                    terminal_loading_error: None,
                    terminal_ready_url: None,
                    ..old(self).playback
                },
                ..*old(self)
            }),
            effects@ == seq![Effect::StartTerminalLoading(url)],
    {
        self.playback.terminal_loading = true;
        self.playback.terminal_loading_progress = 0;
        self.playback.terminal_loading_error = None;
        self.playback.terminal_ready_url = None;
        let e = vec![Effect::StartTerminalLoading(url)];
        assert(e@ =~= seq![Effect::StartTerminalLoading(url)]);
        e
    }

    /// `cmd` for the player when one plays, then the notice for the media
    /// controls, if any.
    fn command_effects(&self, cmd: String, notice: Option<bool>) -> (effects: Vec<Effect>)
        ensures
            commands_then(effects@, self.playback.playing, cmd@, notice),
    {
        let mut effects: Vec<Effect> = Vec::new();
        if self.playback.playing {
            effects.push(Effect::PlayerCommand(cmd));
        }
        if let Some(p) = notice {
            effects.push(Effect::MediaPlaying(p));
        }
        effects
    }

    /// Takes a media key (see `media_handled`).
    pub fn on_media_event(&mut self, ev: MediaEvent) -> (effects: Vec<Effect>)
        ensures
            media_handled(*old(self), *final(self), effects@, ev),
    {
        match ev {
            MediaEvent::Play => {
                let e = self.command_effects(set_pause_command(false), Some(true));
                self.playback.is_paused = false;
                e
            },
            MediaEvent::Pause => {
                let e = self.command_effects(set_pause_command(true), Some(false));
                self.playback.is_paused = true;
                e
            },
            MediaEvent::Toggle => {
                let was = self.playback.is_paused;
                let e = self.command_effects(toggle_pause_command(), Some(was));
                self.playback.is_paused = !was;
                e
            },
            MediaEvent::Next => self.command_effects(quiet_seek_command(10), None),
            MediaEvent::Previous => self.command_effects(quiet_seek_command(-10), None),
            MediaEvent::Stop => self.stop_playback(),
        }
    }

    /// The player exited by itself (see `playback_exited`).
    pub fn on_playback_exited(&mut self) -> (effects: Vec<Effect>)
        ensures
            playback_exited(*old(self), *final(self), effects@),
    {
        if !self.playback.playing {
            return Vec::new();
        }
        self.playback.playing = false;
        self.playback.title = None;
        self.playback.duration_str = None;
        self.playback.is_paused = false;
        self.playback.is_finishing = false;
        self.playback.terminal_loading = false;
        self.playback.terminal_loading_error = None;
        self.playback.terminal_ready_url = None;
        self.status_message = message_of("Stopped.");
        let e = vec![Effect::MediaPlaying(false)];
        assert(e@ =~= seq![Effect::MediaPlaying(false)]);
        e
    }

    /// Shows the position and the length of what plays (see `progress_shown`).
    pub fn set_playback_progress(&mut self, position: u64, total: u64, has_total: bool, finishing: bool)
        ensures
            progress_shown(*old(self), *final(self), position, total, has_total, finishing),
    {
        if has_total {
            let mut s = format_duration(position);
            s.append("/");
            let t = format_duration(total);
            s.append(t.as_str());
            self.playback.duration_str = Some(s);
            self.playback.is_finishing = finishing;
        }
    }

    /// The requests for the position and the length (see `polled`).
    pub fn poll_player(&self) -> (effects: Vec<Effect>)
        ensures
            polled(*self, effects@),
    {
        if self.playback.playing && !self.playback.is_paused {
            vec![Effect::PlayerCommand(position_request()), Effect::PlayerCommand(duration_request())]
        } else {
            Vec::new()
        }
    }

    /// Moves the terminal stream lookup on by a tick, while it is waited for.
    pub fn advance_terminal_loading(&mut self)
        ensures
            old(self).playback.terminal_loading ==> *final(self) == (App {
                playback: Playback {
                    terminal_loading_progress: loading_advanced(old(self).playback.terminal_loading_progress),
                    ..old(self).playback
                },
                ..*old(self)
            }),
            !old(self).playback.terminal_loading ==> *final(self) == *old(self),
    {
        if self.playback.terminal_loading {
            let p = self.playback.terminal_loading_progress;
            self.playback.terminal_loading_progress = if p >= 93 {
                95
            } else {
                p + 2
            };
        }
    }

    /// Takes the answer of the terminal stream lookup (see `terminal_answered`).
    pub fn on_terminal_ready(&mut self, r: Result<String, String>)
        ensures
            terminal_answered(*old(self), *final(self), r),
    {
        if self.playback.terminal_loading {
            match r {
                Ok(url) => {
                    self.playback.terminal_ready_url = Some(url);
                    self.playback.terminal_loading_progress = 100;
                },
                Err(err) => {
                    self.playback.terminal_loading_error = Some(err);
                    self.playback.terminal_loading_progress = 0;
                },
            }
        }
    }

    /// Takes the target ready for the terminal player, if any: the lookup
    /// ends, and the target is split into the address and the user agent
    /// (see `split_target`).
    pub fn take_terminal_ready(&mut self) -> (r: Option<(String, Option<String>)>)
        ensures
            match old(self).playback.terminal_ready_url {
                Some(u) => {
                    &&& *final(self) == App {
                        playback: Playback {
                            terminal_ready_url: None,
                            terminal_loading: false,
                            terminal_loading_progress: 0,
                            ..old(self).playback
                        },
                        ..*old(self)
                    }
                    &&& r matches Some(p) && (p.0@, opt_text(p.1)) == split_target(u@)
                },
                None => *final(self) == *old(self) && r is None,
            },
    {
        let taken = self.playback.terminal_ready_url.take();
        match taken {
            Some(u) => {
                self.playback.terminal_loading = false;
                self.playback.terminal_loading_progress = 0;
                Some(split_terminal_target(u.as_str()))
            },
            None => None,
        }
    }

    /// Takes the playback the menus asked for (see `pending_taken`).
    pub fn take_pending_playback(&mut self) -> (r: (Option<PlayRequest>, Vec<Effect>))
        ensures
            pending_taken(*old(self), *final(self), r.0, r.1@),
    {
        let taken = self.pending_action.take();
        match taken {
            Some((act, url, title)) => {
                let e = self.stop_playback();
                let req = match act {
                    AppAction::WatchExternal => Some(PlayRequest { audio: false, url, title }),
                    AppAction::ListenAudio => Some(PlayRequest { audio: true, url, title }),
                    _ => None,
                };
                (req, e)
            },
            None => (None, Vec::new()),
        }
    }

    /// The player was started for `title` (see `playback_began`).
    pub fn playback_started(&mut self, title: String, audio: bool) -> (effects: Vec<Effect>)
        ensures
            playback_began(*old(self), *final(self), effects@, title, audio),
    {
        self.playback.playing = true;
        self.playback.title = Some(title);
        self.status_message = if audio {
            message_of("Playing audio...")
        } else {
            message_of("Playing externally...")
        };
        let e = vec![Effect::MediaPlaying(true)];
        assert(e@ =~= seq![Effect::MediaPlaying(true)]);
        e
    }

    /// The player could not be started: the status line says why.
    pub fn playback_failed(&mut self, audio: bool, error: &str)
        ensures
            *final(self) == (App { status_message: final(self).status_message, ..*old(self) }),
            text_is(
                final(self).status_message,
                (if audio { "Error playing audio: "@ } else { "Error playing video: "@ }) + error@,
            ),
    {
        self.status_message = if audio {
            message("Error playing audio: ", error)
        } else {
            message("Error playing video: ", error)
        };
    }
}

} // verus!
