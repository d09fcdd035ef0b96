//! Path text: joining, `~` expansion, and the files the program keeps.
use vstd::prelude::*;
use crate::text::{chars_of, string_of, push_chars, starts_with, has_prefix};

verus! {

broadcast use vstd::string::group_string_axioms;

/// `base` joined with `rest` as `Path::join` does on Unix: an absolute
/// `rest` replaces `base`; otherwise a `/` separates them unless `base` is
/// empty or already ends with one.
pub open spec fn path_join(base: Seq<char>, rest: Seq<char>) -> Seq<char> {
    if rest.len() > 0 && rest[0] == '/' {
        rest
    } else if base.len() == 0 || base.last() == '/' {
        base + rest
    } else {
        base + seq!['/'] + rest
    }
}

/// `base` joined with `rest`.
pub fn join_path(base: &str, rest: &str) -> (r: String)
    ensures
        r@ == path_join(base@, rest@),
{
    let b = chars_of(base);
    let t = chars_of(rest);
    if t.len() > 0 && t[0] == '/' {
        return string_of(t.as_slice());
    }
    let mut r = string_of(b.as_slice());
    if !(b.len() == 0 || b[b.len() - 1] == '/') {
        crate::text::push_char(&mut r, '/');
    }
    push_chars(&mut r, t.as_slice());
    r
}

/// `path` with a leading `~` standing for `home`: `~` alone is `home`, and
/// `~/rest` is `home` joined with `rest`; without a home directory, or for
/// any other path, `path` is kept.
pub open spec fn tilde_expanded(path: Seq<char>, home: Option<Seq<char>>) -> Seq<char> {
    match home {
        Some(h) => if path == seq!['~'] {
            h
        } else if starts_with(path, seq!['~', '/']) {
            path_join(h, path.skip(2))
        } else {
            path
        },
        None => path,
    }
}

/// `path` with `~` expanded to the home directory `home`, when there is one.
pub fn expand_tilde(path: &str, home: Option<&str>) -> (r: String)
    ensures
        r@ == tilde_expanded(path@, match home {
            Some(h) => Some(h@),
            None => None,
        }),
{
    let p = chars_of(path);
    match home {
        Some(h) => {
            if p.len() == 1 && p[0] == '~' {
                assert(p@ =~= seq!['~']);
                return String::from_str(h);
            }
            if p.len() >= 2 && p[0] == '~' && p[1] == '/' {
                assert(starts_with(p@, seq!['~', '/'])) by {
                    assert(p@.take(2) =~= seq!['~', '/']);
                }
                let mut rest: Vec<char> = Vec::new();
                let mut k: usize = 2;
                while k < p.len()
                    invariant
                        2 <= k <= p.len(),
                        rest@ == p@.subrange(2, k as int),
                    decreases p.len() - k,
                {
                    rest.push(p[k]);
                    k = k + 1;
                    assert(rest@ =~= p@.subrange(2, k as int));
                }
                assert(rest@ =~= p@.skip(2));
                let rs = string_of(rest.as_slice());
                return join_path(h, rs.as_str());
            }
            proof {
                if p@ == seq!['~'] {
                    assert(p@.len() == 1);
                }
                if starts_with(p@, seq!['~', '/']) {
                    assert(p@.take(2)[0] == '~' && p@.take(2)[1] == '/');
                }
            }
            String::from_str(path)
        },
        None => String::from_str(path),
    }
}

/// Where the log goes: the configured path with `~` expanded, else the
/// platform's default location, if it has one.
pub open spec fn log_path_choice(
    configured: Option<Seq<char>>,
    home: Option<Seq<char>>,
    default_location: Option<Seq<char>>,
) -> Option<Seq<char>> {
    match configured {
        Some(p) => Some(tilde_expanded(p, home)),
        None => default_location,
    }
}

/// The log file path: the configured one with `~` expanded, else the
/// default location the platform offers, if any.
pub fn log_path(configured: Option<&str>, home: Option<&str>, default_location: Option<String>) -> (r: Option<String>)
    ensures
        r matches Some(s) ==> log_path_choice(
            match configured { Some(c) => Some(c@), None => None },
            match home { Some(h) => Some(h@), None => None },
            match default_location { Some(d) => Some(d@), None => None },
        ) == Some(s@),
        r is None ==> configured is None && default_location is None,
{
    match configured {
        Some(c) => Some(expand_tilde(c, home)),
        None => default_location,
    }
}

/// A path typed by the user: `~/rest` is `rest` under the home directory;
/// anything else is taken as it is.
pub open spec fn resolved_path(path: Seq<char>, home: Seq<char>) -> Seq<char> {
    if starts_with(path, seq!['~', '/']) {
        path_join(home, path.skip(2))
    } else {
        path
    }
}

/// The directory `path` names, with a leading `~/` resolved against `home`.
pub fn resolve_path(path: &str, home: &str) -> (r: String)
    ensures
        r@ == resolved_path(path@, home@),
{
    let p = chars_of(path);
    let pre = chars_of("~/");
    proof { reveal_strlit("~/"); }
    assert(pre@ =~= seq!['~', '/']);
    if has_prefix(p.as_slice(), pre.as_slice()) {
        let r = expand_tilde(path, Some(home));
        proof {
            assert(p@ != seq!['~']);
        }
        r
    } else {
        String::from_str(path)
    }
}

/// The socket through which the player is controlled, for the process `pid`.
pub open spec fn ipc_path_text(windows: bool, pid: nat) -> Seq<char> {
    if windows {
        "\\\\\\\\.\\\\pipe\\\\rataplay-mpv-"@ + crate::text::decimal(pid)
    } else {
        "/tmp/rataplay-mpv-"@ + crate::text::decimal(pid) + ".sock"@
    }
}

/// The player's control socket path for process `pid`.
pub fn get_ipc_path(windows: bool, pid: u32) -> (r: String)
    ensures
        r@ == ipc_path_text(windows, pid as nat),
{
    let mut r = if windows {
        String::from_str("\\\\\\\\.\\\\pipe\\\\rataplay-mpv-")
    } else {
        String::from_str("/tmp/rataplay-mpv-")
    };
    crate::text::push_decimal(&mut r, pid as u64);
    if !windows {
        r.append(".sock");
    }
    r
}

} // verus!
