//! Writing the configuration file: refreshing the values in an existing
//! file while keeping its comments and layout, and writing a new one.
use vstd::prelude::*;
use crate::text::{chars_of, push_char, push_chars, push_decimal, decimal, trim, trimmed, same_chars, contains, occurs_at};
use crate::json::{json_quote, json_string};
use crate::widgets::animation_name;
use crate::config::{Config, CookieSource};

verus! {

broadcast use vstd::string::group_string_axioms;

/// The line being read ends its text so far: drop one `\r` before the `\n`.
pub open spec fn strip_cr(s: Seq<char>) -> Seq<char> {
    if s.len() > 0 && s.last() == '\r' {
        s.drop_last()
    } else {
        s
    }
}

/// The lines of `s` after the text `cur` of a line already begun: each `\n`
/// ends a line (without a `\r` just before it); what follows the last `\n`
/// is a line only if it is not empty.
pub open spec fn lines_from(s: Seq<char>, cur: Seq<char>) -> Seq<Seq<char>>
    decreases s.len(),
{
    if s.len() == 0 {
        if cur.len() > 0 {
            seq![cur]
        } else {
            Seq::empty()
        }
    } else if s[0] == '\n' {
        seq![strip_cr(cur)] + lines_from(s.drop_first(), Seq::empty())
    } else {
        lines_from(s.drop_first(), cur.push(s[0]))
    }
}

/// The lines of `s`, as `str::lines` splits them.
pub open spec fn lines_of(s: Seq<char>) -> Seq<Seq<char>> {
    lines_from(s, Seq::empty())
}

/// The lines joined with `\n` between them.
pub open spec fn joined(ls: Seq<Seq<char>>) -> Seq<char>
    decreases ls.len(),
{
    if ls.len() == 0 {
        Seq::empty()
    } else if ls.len() == 1 {
        ls[0]
    } else {
        joined(ls.drop_last()) + seq!['\n'] + ls.last()
    }
}

/// The lines of `s`.
pub fn split_lines(s: &str) -> (r: Vec<Vec<char>>)
    ensures
        r@.map_values(|l: Vec<char>| l@) == lines_of(s@),
{
    let v = chars_of(s);
    let mut out: Vec<Vec<char>> = Vec::new();
    let mut cur: Vec<char> = Vec::new();
    let mut i: usize = 0;
    assert(v@.skip(0) =~= v@);
    while i < v.len()
        invariant
            i <= v.len(),
            v@ == s@,
            out@.map_values(|l: Vec<char>| l@) + lines_from(v@.skip(i as int), cur@) == lines_of(
                v@,
            ),
        decreases v.len() - i,
    {
        let c = v[i];
        let ghost cur0 = cur@;
        let ghost before = out@.map_values(|l: Vec<char>| l@);
        assert(v@.skip(i as int).drop_first() =~= v@.skip(i + 1));
        if c == '\n' {
            let mut line = cur;
            if line.len() > 0 && line[line.len() - 1] == '\r' {
                line.pop();
            }
            assert(line@ =~= strip_cr(cur0));
            out.push(line);
            assert(out@.map_values(|l: Vec<char>| l@) =~= before.push(strip_cr(cur0)));
            cur = Vec::new();
            assert(before + lines_from(v@.skip(i as int), cur0) =~= before.push(strip_cr(cur0))
                + lines_from(v@.skip(i + 1), cur@));
        } else {
            cur.push(c);
        }
        i = i + 1;
    }
    if cur.len() > 0 {
        let ghost before = out@.map_values(|l: Vec<char>| l@);
        let ghost last = cur@;
        out.push(cur);
        assert(out@.map_values(|l: Vec<char>| l@) =~= before.push(last));
        assert(before + lines_from(v@.skip(v.len() as int), last) =~= before.push(last));
    } else {
        assert(out@.map_values(|l: Vec<char>| l@) + lines_from(v@.skip(v.len() as int), cur@) =~= out@.map_values(|l: Vec<char>| l@));
    }
    out
}


/// The lines joined with `\n` between them.
pub fn join_lines(ls: &Vec<Vec<char>>) -> (r: String)
    ensures
        r@ == joined(ls@.map_values(|l: Vec<char>| l@)),
{
    let ghost m = ls@.map_values(|l: Vec<char>| l@);
    let mut r = String::new();
    let mut i: usize = 0;
    while i < ls.len()
        invariant
            i <= ls.len(),
            m == ls@.map_values(|l: Vec<char>| l@),
            r@ == joined(m.take(i as int)),
        decreases ls.len() - i,
    {
        assert(m.take(i + 1).drop_last() =~= m.take(i as int));
        if i > 0 {
            push_char(&mut r, '\n');
        }
        push_chars(&mut r, ls[i].as_slice());
        i = i + 1;
    }
    assert(m.take(ls.len() as int) =~= m);
    r
}

/// The index of the first `c` in `s`.
pub open spec fn first_index(s: Seq<char>, c: char) -> Option<int>
    decreases s.len(),
{
    if s.len() == 0 {
        None
    } else if s[0] == c {
        Some(0)
    } else {
        match first_index(s.drop_first(), c) {
            Some(i) => Some(i + 1),
            None => None,
        }
    }
}

/// The first index found holds `c` and lies in `s`; no earlier one holds `c`.
pub proof fn lemma_first_index(s: Seq<char>, c: char)
    ensures
        first_index(s, c) matches Some(i) ==> 0 <= i < s.len() && s[i] == c && forall|j: int|
            0 <= j < i ==> s[j] != c,
        first_index(s, c) is None ==> forall|j: int| 0 <= j < s.len() ==> s[j] != c,
    decreases s.len(),
{
    if s.len() > 0 {
        lemma_first_index(s.drop_first(), c);
        if s[0] != c {
            assert forall|j: int| 1 <= j < s.len() implies s[j] == s.drop_first()[j - 1] by {}
        }
    }
}

/// The index of the first `c` in `s`, if any.
pub fn find_char(s: &[char], c: char) -> (r: Option<usize>)
    ensures
        r matches Some(i) ==> first_index(s@, c) == Some(i as int) && i < s@.len(),
        r is None ==> first_index(s@, c) is None,
{
    let mut i: usize = 0;
    assert(s@.skip(0) =~= s@);
    while i < s.len()
        invariant
            i <= s.len(),
            forall|j: int| 0 <= j < i ==> s@[j] != c,
            first_index(s@, c) == match first_index(s@.skip(i as int), c) {
                Some(k) => Some(k + i),
                None => None,
            },
        decreases s.len() - i,
    {
        assert(s@.skip(i as int).drop_first() =~= s@.skip(i + 1));
        if s[i] == c {
            return Some(i);
        }
        i = i + 1;
    }
    None
}

/// `true` or `false`.
pub open spec fn bool_text(b: bool) -> Seq<char> {
    if b {
        "true"@
    } else {
        "false"@
    }
}

/// Appends `true` or `false` to `out`.
pub fn push_bool(out: &mut String, b: bool)
    ensures
        final(out)@ == old(out)@ + bool_text(b),
{
    if b {
        out.append("true");
    } else {
        out.append("false");
    }
}

/// Whether the characters `v` spell `w`.
pub fn is_word(v: &[char], w: &str) -> (b: bool)
    ensures
        b == (v@ == w@),
{
    let wc = chars_of(w);
    same_chars(v, wc.as_slice())
}

/// The section a header line opens: the trimmed text between `[` and the
/// first `]`, or the current section when that is empty or has no `]`.
pub open spec fn section_after(t: Seq<char>, current: Seq<char>) -> Seq<char> {
    match first_index(t, ']') {
        Some(e) => {
            let name = trim(t.subrange(1, e));
            if name.len() > 0 {
                name
            } else {
                current
            }
        },
        None => current,
    }
}

/// The new text of a `key = value` line whose key is `key`, in `section`:
/// the setting's current value for the keys the file keeps up to date, the
/// old line for every other key.
pub open spec fn key_line(cfg: Config, section: Seq<char>, key: Seq<char>, line: Seq<char>) -> Seq<char> {
    if section.len() == 0 {
        if key == "theme"@ {
            "theme = "@ + json_quote(cfg.theme@)
        } else if key == "search_limit"@ {
            "search_limit = "@ + decimal(cfg.search_limit as nat)
        } else if key == "playlist_limit"@ {
            "playlist_limit = "@ + decimal(cfg.playlist_limit as nat)
        } else if key == "download_directory"@ {
            "download_directory = "@ + json_quote(cfg.download_directory@)
        } else if key == "animation"@ {
            "animation = "@ + json_quote(animation_name(cfg.animation))
        } else if key == "show_live"@ {
            "show_live = "@ + bool_text(cfg.show_live)
        } else if key == "show_playlists"@ {
            "show_playlists = "@ + bool_text(cfg.show_playlists)
        } else {
            line
        }
    } else if section == "executables"@ && key == "enabled"@ {
        "enabled = "@ + bool_text(cfg.executables.enabled)
    } else if section == "cookies"@ && key == "enabled"@ {
        "enabled = "@ + bool_text(cfg.cookies.enabled)
    } else if section == "logging"@ && key == "enabled"@ {
        "enabled = "@ + bool_text(cfg.logging.enabled)
    } else if section == "logging"@ && key == "path"@ {
        match cfg.logging.path {
            Some(p) => "path = "@ + json_quote(p@),
            None => line,
        }
    } else {
        line
    }
}

/// A line of the file as it is written back: headers, comments, blank
/// lines and lines without `=` stay as they are; a `key = value` line is
/// renewed as `key_line` says.
pub open spec fn refreshed_line(cfg: Config, section: Seq<char>, line: Seq<char>) -> Seq<char> {
    let t = trim(line);
    if t.len() == 0 || t[0] == '[' || t[0] == '#' {
        line
    } else {
        match first_index(t, '=') {
            Some(k) => key_line(cfg, section, trim(t.take(k)), line),
            None => line,
        }
    }
}

/// The section in force after `line`.
pub open spec fn section_after_line(section: Seq<char>, line: Seq<char>) -> Seq<char> {
    let t = trim(line);
    if t.len() > 0 && t[0] == '[' {
        section_after(t, section)
    } else {
        section
    }
}

/// The lines renewed one by one, starting in `section`.
pub open spec fn refreshed_lines(cfg: Config, lines: Seq<Seq<char>>, section: Seq<char>) -> Seq<
    Seq<char>,
>
    decreases lines.len(),
{
    if lines.len() == 0 {
        Seq::empty()
    } else {
        seq![refreshed_line(cfg, section, lines[0])] + refreshed_lines(
            cfg,
            lines.drop_first(),
            section_after_line(section, lines[0]),
        )
    }
}

/// The file text `content` with the current values written into the
/// settings it holds.
pub open spec fn refreshed_file(cfg: Config, content: Seq<char>) -> Seq<char> {
    joined(refreshed_lines(cfg, lines_of(content), Seq::empty()))
}

/// A line the refresh never rewrites: blank, a section header or a comment.
pub open spec fn kept_line(line: Seq<char>) -> bool {
    let t = trim(line);
    t.len() == 0 || t[0] == '[' || t[0] == '#'
}

/// Writing the settings back into an existing file keeps its layout: it has
/// as many lines as before, and every blank line, section header and
/// comment stays as the user wrote it.
pub proof fn law_refresh_keeps_comments(cfg: Config, lines: Seq<Seq<char>>, section: Seq<char>)
    ensures
        refreshed_lines(cfg, lines, section).len() == lines.len(),
        forall|i: int| 0 <= i < lines.len() && kept_line(lines[i]) ==> #[trigger] refreshed_lines(cfg, lines, section)[i] == lines[i],
    decreases lines.len(),
{
    if lines.len() > 0 {
        let rest = lines.drop_first();
        let next = section_after_line(section, lines[0]);
        law_refresh_keeps_comments(cfg, rest, next);
        let r = refreshed_lines(cfg, lines, section);
        assert forall|i: int| 0 <= i < lines.len() && kept_line(lines[i]) implies #[trigger] r[i] == lines[i] by {
            if i > 0 {
                assert(r[i] == refreshed_lines(cfg, rest, next)[i - 1]);
                assert(rest[i - 1] == lines[i]);
            }
        }
    }
}

/// Saving writes each setting the file keeps up to date with the
/// configuration's current value. For a `key = value` line (not blank, not
/// a header, not a comment), with `key` the trimmed text before its first
/// `=`: at the top level `theme`, `search_limit`, `playlist_limit`,
/// `download_directory`, `animation`, `show_live` and `show_playlists`
/// become `key = ` and the current value (texts quoted as JSON, numbers in
/// decimal, switches as `true` or `false`); `enabled` under
/// `[executables]`, `[cookies]` and `[logging]`, and `path` under
/// `[logging]` when a path is set, likewise; every other line stays.
pub proof fn law_saved_values(cfg: Config, section: Seq<char>, line: Seq<char>, k: int)
    requires
        trim(line).len() > 0,
        trim(line)[0] != '[',
        trim(line)[0] != '#',
        first_index(trim(line), '=') == Some(k),
    ensures
        ({
            let key = trim(trim(line).take(k));
            let out = refreshed_line(cfg, section, line);
            let top = section.len() == 0;
            &&& top && key == "theme"@ ==> out == "theme = "@ + json_quote(cfg.theme@)
            &&& top && key == "search_limit"@ ==> out == "search_limit = "@ + decimal(cfg.search_limit as nat)
            &&& top && key == "playlist_limit"@ ==> out == "playlist_limit = "@ + decimal(cfg.playlist_limit as nat)
            &&& top && key == "download_directory"@ ==> out == "download_directory = "@ + json_quote(
                cfg.download_directory@,
            )
            &&& top && key == "animation"@ ==> out == "animation = "@ + json_quote(animation_name(cfg.animation))
            &&& top && key == "show_live"@ ==> out == "show_live = "@ + (if cfg.show_live {
                "true"@
            } else {
                "false"@
            })
            &&& top && key == "show_playlists"@ ==> out == "show_playlists = "@ + (if cfg.show_playlists {
                "true"@
            } else {
                "false"@
            })
            &&& section == "executables"@ && key == "enabled"@ ==> out == "enabled = "@ + (if cfg.executables.enabled {
                "true"@
            } else {
                "false"@
            })
            &&& section == "cookies"@ && key == "enabled"@ ==> out == "enabled = "@ + (if cfg.cookies.enabled {
                "true"@
            } else {
                "false"@
            })
            &&& section == "logging"@ && key == "enabled"@ ==> out == "enabled = "@ + (if cfg.logging.enabled {
                "true"@
            } else {
                "false"@
            })
            &&& section == "logging"@ && key == "path"@ ==> out == match cfg.logging.path {
                Some(p) => "path = "@ + json_quote(p@),
                None => line,
            }
            &&& !(top && (key == "theme"@ || key == "search_limit"@ || key == "playlist_limit"@ || key
                == "download_directory"@ || key == "animation"@ || key == "show_live"@ || key == "show_playlists"@))
                && !((section == "executables"@ || section == "cookies"@ || section == "logging"@) && key
                == "enabled"@) && !(section == "logging"@ && key == "path"@) ==> out == line
        }),
{
    reveal_strlit("executables");
    reveal_strlit("cookies");
    reveal_strlit("logging");
    reveal_strlit("theme");
    reveal_strlit("search_limit");
    reveal_strlit("playlist_limit");
    reveal_strlit("download_directory");
    reveal_strlit("animation");
    reveal_strlit("show_live");
    reveal_strlit("show_playlists");
    reveal_strlit("enabled");
    reveal_strlit("path");
    let key = trim(trim(line).take(k));
    assert(refreshed_line(cfg, section, line) == key_line(cfg, section, key, line));
    assert("theme"@.len() == 5 && "search_limit"@.len() == 12 && "playlist_limit"@.len() == 14
        && "download_directory"@.len() == 18 && "animation"@.len() == 9 && "show_live"@.len() == 9
        && "show_playlists"@.len() == 14);
    assert("animation"@ != "show_live"@) by {
        assert("animation"@[0] != "show_live"@[0]);
    }
    assert("playlist_limit"@ != "show_playlists"@) by {
        assert("playlist_limit"@[0] != "show_playlists"@[0]);
    }
    assert("logging"@ != "cookies"@) by {
        assert("logging"@[0] != "cookies"@[0]);
    }
    assert("executables"@.len() == 11 && "logging"@.len() == 7 && "enabled"@.len() == 7 && "path"@.len() == 4);
}

/// The lines before the file's first section header are at the top level:
/// each is written back as a top-level line.
pub proof fn law_top_level_lines(cfg: Config, lines: Seq<Seq<char>>, i: int)
    requires
        0 <= i < lines.len(),
        forall|j: int| 0 <= j <= i ==> !(trim(lines[j]).len() > 0 && trim(lines[j])[0] == '['),
    ensures
        refreshed_lines(cfg, lines, Seq::empty())[i] == refreshed_line(cfg, Seq::empty(), lines[i]),
    decreases i,
{
    let r = refreshed_lines(cfg, lines, Seq::empty());
    assert(r == seq![refreshed_line(cfg, Seq::empty(), lines[0])] + refreshed_lines(
        cfg,
        lines.drop_first(),
        section_after_line(Seq::empty(), lines[0]),
    ));
    if i > 0 {
        let rest = lines.drop_first();
        law_refresh_keeps_comments(cfg, rest, Seq::empty());
        assert(section_after_line(Seq::empty(), lines[0]) == Seq::<char>::empty());
        assert forall|j: int| 0 <= j <= i - 1 implies !(trim(rest[j]).len() > 0 && trim(rest[j])[0] == '[') by {
            assert(rest[j] == lines[j + 1]);
        }
        law_top_level_lines(cfg, rest, i - 1);
        assert(rest[i - 1] == lines[i]);
        assert(r[i] == refreshed_lines(cfg, rest, Seq::empty())[i - 1]);
    }
}

/// The chars of `s` from `a` to `b`.
fn slice_chars(s: &[char], a: usize, b: usize) -> (r: Vec<char>)
    requires
        a <= b <= s.len(),
    ensures
        r@ == s@.subrange(a as int, b as int),
{
    let mut r: Vec<char> = Vec::new();
    let mut k = a;
    while k < b
        invariant
            a <= k <= b <= s.len(),
            r@ == s@.subrange(a as int, k as int),
        decreases b - k,
    {
        r.push(s[k]);
        k = k + 1;
        assert(r@ =~= s@.subrange(a as int, k as int));
    }
    r
}

/// The section a trimmed header line opens.
fn header_section(t: &[char], current: Vec<char>) -> (r: Vec<char>)
    requires
        t@.len() > 0 && t@[0] == '[',
    ensures
        r@ == section_after(t@, current@),
{
    match find_char(t, ']') {
        Some(e) => {
            if e == 0 {
                proof { lemma_first_index(t@, ']'); }
                return current;
            }
            let inner = slice_chars(t, 1, e);
            let name = trimmed(inner.as_slice());
            if name.len() > 0 {
                name
            } else {
                current
            }
        },
        None => current,
    }
}

/// A setting line: `prefix` followed by more text.
fn line_with(prefix: &str, rest: &str) -> (r: Vec<char>)
    ensures
        r@ == prefix@ + rest@,
{
    let mut s = String::from_str(prefix);
    s.append(rest);
    chars_of(s.as_str())
}

/// `prefix` followed by `true` or `false`.
fn bool_line(prefix: &str, b: bool) -> (r: Vec<char>)
    ensures
        r@ == prefix@ + bool_text(b),
{
    let mut s = String::from_str(prefix);
    push_bool(&mut s, b);
    chars_of(s.as_str())
}

/// `prefix` followed by a number.
fn number_line(prefix: &str, n: u32) -> (r: Vec<char>)
    ensures
        r@ == prefix@ + decimal(n as nat),
{
    let mut s = String::from_str(prefix);
    push_decimal(&mut s, n as u64);
    chars_of(s.as_str())
}

/// The renewed text of a `key = value` line.
fn renew_key_line(cfg: &Config, section: &[char], key: &[char], line: Vec<char>) -> (r: Vec<char>)
    ensures
        r@ == key_line(*cfg, section@, key@, line@),
{
    if section.len() == 0 {
        if is_word(key, "theme") {
            line_with("theme = ", json_string(cfg.theme.as_str()).as_str())
        } else if is_word(key, "search_limit") {
            number_line("search_limit = ", cfg.search_limit)
        } else if is_word(key, "playlist_limit") {
            number_line("playlist_limit = ", cfg.playlist_limit)
        } else if is_word(key, "download_directory") {
            line_with("download_directory = ", json_string(cfg.download_directory.as_str()).as_str())
        } else if is_word(key, "animation") {
            line_with("animation = ", json_string(cfg.animation.name()).as_str())
        } else if is_word(key, "show_live") {
            bool_line("show_live = ", cfg.show_live)
        } else if is_word(key, "show_playlists") {
            bool_line("show_playlists = ", cfg.show_playlists)
        } else {
            line
        }
    } else if is_word(section, "executables") && is_word(key, "enabled") {
        bool_line("enabled = ", cfg.executables.enabled)
    } else if is_word(section, "cookies") && is_word(key, "enabled") {
        bool_line("enabled = ", cfg.cookies.enabled)
    } else if is_word(section, "logging") && is_word(key, "enabled") {
        bool_line("enabled = ", cfg.logging.enabled)
    } else if is_word(section, "logging") && is_word(key, "path") {
        match &cfg.logging.path {
            Some(p) => line_with("path = ", json_string(p.as_str()).as_str()),
            None => line,
        }
    } else {
        line
    }
}

/// One line renewed; also the section in force after it.
fn renew_line(cfg: &Config, section: Vec<char>, line: Vec<char>) -> (r: (Vec<char>, Vec<char>))
    ensures
        r.0@ == refreshed_line(*cfg, section@, line@),
        r.1@ == section_after_line(section@, line@),
{
    let t = trimmed(line.as_slice());
    if t.len() == 0 || t[0] == '#' {
        return (line, section);
    }
    if t[0] == '[' {
        let next = header_section(t.as_slice(), section);
        return (line, next);
    }
    match find_char(t.as_slice(), '=') {
        Some(k) => {
            let key_part = slice_chars(t.as_slice(), 0, k);
            assert(key_part@ =~= t@.take(k as int));
            let key = trimmed(key_part.as_slice());
            let renewed = renew_key_line(cfg, section.as_slice(), key.as_slice(), line);
            (renewed, section)
        },
        None => (line, section),
    }
}

impl Config {
    /// The file text `content` with this configuration's values written
    /// into the lines that hold them; every other line (comments, blank
    /// lines, headers, other keys) is kept as it is.
    pub fn update_content_preservative(&self, content: &str) -> (r: String)
        ensures
            r@ == refreshed_file(*self, content@),
    {
        let lines = split_lines(content);
        let ghost ls = lines@.map_values(|l: Vec<char>| l@);
        let mut out: Vec<Vec<char>> = Vec::new();
        let mut section: Vec<char> = Vec::new();
        let mut i: usize = 0;
        assert(ls.skip(0) =~= ls);
        while i < lines.len()
            invariant
                i <= lines.len(),
                ls == lines@.map_values(|l: Vec<char>| l@),
                out@.map_values(|l: Vec<char>| l@) + refreshed_lines(
                    *self,
                    ls.skip(i as int),
                    section@,
                ) == refreshed_lines(*self, ls, Seq::empty()),
            decreases lines.len() - i,
        {
            let ghost before = out@.map_values(|l: Vec<char>| l@);
            let ghost sec0 = section@;
            assert(ls.skip(i as int).drop_first() =~= ls.skip(i + 1));
            assert(ls.skip(i as int)[0] == lines@[i as int]@);
            let line = lines[i].clone();
            let (renewed, next) = renew_line(self, section, line);
            out.push(renewed);
            section = next;
            assert(out@.map_values(|l: Vec<char>| l@) =~= before.push(
                refreshed_line(*self, sec0, ls[i as int]),
            ));
            assert(before + refreshed_lines(*self, ls.skip(i as int), sec0) =~= out@.map_values(
                |l: Vec<char>| l@,
            ) + refreshed_lines(*self, ls.skip(i + 1), section@));
            i = i + 1;
        }
        assert(out@.map_values(|l: Vec<char>| l@) + Seq::empty() =~= out@.map_values(
            |l: Vec<char>| l@,
        ));
        join_lines(&out)
    }
}


/// The operating system the program was built for; the new configuration
/// file names the default log location of the first three.
#[derive(Clone, Copy, PartialEq, Eq, Structural)]
pub enum TargetOs {
    Linux,
    Windows,
    MacOs,
    Other,
}

/// One documented setting: its comment lines, then `key = value` and a
/// blank line.
pub open spec fn entry(comment: Seq<char>, prefix: Seq<char>, value: Seq<char>) -> Seq<char> {
    comment + prefix + value + "\n\n"@
}

/// A value in double quotes, as written without escapes.
pub open spec fn quoted(v: Seq<char>) -> Seq<char> {
    seq!['"'] + v + seq!['"']
}

/// The top of a new configuration file: the general settings.
pub open spec fn general_part(cfg: Config) -> Seq<char> {
    "# Rataplay Configuration\n\n"@ + entry(
        "# The visual style of the application.\n# Available themes: \"Default\", \"Dracula\", \"Matrix\", \"Cyberpunk\", \"Catppuccin\"\n"@,
        "theme = "@,
        json_quote(cfg.theme@),
    ) + entry(
        "# The number of results to fetch per search page or \"Load More\" action.\n"@,
        "search_limit = "@,
        decimal(cfg.search_limit as nat),
    ) + entry(
        "# The maximum number of videos to load when opening a playlist.\n"@,
        "playlist_limit = "@,
        decimal(cfg.playlist_limit as nat),
    ) + entry(
        "# The directory where videos and audio will be downloaded.\n"@,
        "download_directory = "@,
        json_quote(cfg.download_directory@),
    ) + entry(
        "# The animation style for the logo.\n# Options: \"Wave\", \"Breathe\", \"Glitch\", \"Neon\", \"Static\"\n"@,
        "animation = "@,
        quoted(animation_name(cfg.animation)),
    ) + entry(
        "# Whether to show live streams in search results.\n"@,
        "show_live = "@,
        bool_text(cfg.show_live),
    ) + entry(
        "# Whether to show playlists in search results.\n"@,
        "show_playlists = "@,
        bool_text(cfg.show_playlists),
    ) + "# --- Advanced Configuration ---\n\n"@
}

/// One executable path line: the path when set, else a commented example.
pub open spec fn exe_line(key: Seq<char>, path: Option<String>, example: Seq<char>) -> Seq<char> {
    match path {
        Some(p) => key + " = "@ + json_quote(p@) + "\n"@,
        None => "# "@ + key + " = \""@ + example + "\"\n"@,
    }
}

/// The `[executables]` section of a new configuration file.
pub open spec fn executables_part(cfg: Config) -> Seq<char> {
    "[executables]\n"@ + "enabled = "@ + bool_text(cfg.executables.enabled) + "\n"@
        + "# Absolute paths to binaries. If commented out, system PATH is used.\n"@ + exe_line(
        "mpv"@,
        cfg.executables.mpv,
        "/usr/bin/mpv"@,
    ) + exe_line("ytdlp"@, cfg.executables.ytdlp, "/usr/bin/yt-dlp"@) + exe_line(
        "ffmpeg"@,
        cfg.executables.ffmpeg,
        "/usr/bin/ffmpeg"@,
    ) + exe_line("deno"@, cfg.executables.deno, "/usr/bin/deno"@) + "\n"@
}

/// The explanation of the cookie sources in a new configuration file.
pub open spec fn cookie_help() -> Seq<char> {
    "# \n# --- How to configure ---\n# 1. Browser: Use cookies from your installed browser.\n# Please keep in mind that you have to install secretstorage to use this feature.\n#    source.type = \"browser\"\n#    source.value = \"chrome\"  # Options: chrome, firefox, edge, safari, opera, vivaldi, brave\n# \n# 2. Netscape: Use a Netscape-formatted cookie file.\n#    source.type = \"netscape\"\n#    source.value = \"/path/to/cookies.txt\"\n# \n# 3. JSON: Use a JSON-formatted cookie file.\n#    source.type = \"json\"\n#    source.value = \"/path/to/cookies.json\"\n# ------------------------\n\n"@
}

/// The commented-out cookie source lines.
pub open spec fn source_lines(src: CookieSource) -> Seq<char> {
    match src {
        CookieSource::Off => "# source.type = \"\"\n# source.value = \"\"\n"@,
        CookieSource::Browser(n) => "#source.type = \"browser\"\n"@ + "#source.value = "@
            + json_quote(n@) + "\n"@,
        CookieSource::Netscape(p) => "#source.type = \"netscape\"\n"@ + "#source.value = "@
            + json_quote(p@) + "\n"@,
        CookieSource::Json(p) => "#source.type = \"json\"\n"@ + "#source.value = "@ + json_quote(
            p@,
        ) + "\n"@,
    }
}

/// The `[cookies]` section of a new configuration file.
pub open spec fn cookies_part(cfg: Config) -> Seq<char> {
    "[cookies]\n"@
        + "# This section configures how yt-dlp accesses cookies for protected content (like Watch Later).\n"@
        + "enabled = "@ + bool_text(cfg.cookies.enabled) + "\n"@ + cookie_help() + source_lines(
        cfg.cookies.source,
    ) + "\n"@
}

/// The comment naming the default log file location on `os`.
pub open spec fn log_location_line(os: TargetOs) -> Seq<char> {
    match os {
        TargetOs::Linux => "# Linux:   ~/.local/state/rataplay/rataplay.log\n"@,
        TargetOs::Windows => "# Windows: %LOCALAPPDATA%/rataplay/logs/rataplay.log\n"@,
        TargetOs::MacOs => "# macOS:   ~/Library/Logs/rataplay/rataplay.log\n"@,
        TargetOs::Other => Seq::empty(),
    }
}

/// The `[logging]` section of a new configuration file.
pub open spec fn logging_part(cfg: Config, os: TargetOs) -> Seq<char> {
    "[logging]\n"@ + "# Whether to enable application logging.\n"@ + "enabled = "@ + bool_text(
        cfg.logging.enabled,
    ) + "\n"@ + "# The default location of log file is:\n"@ + log_location_line(os)
        + match cfg.logging.path {
        Some(p) => "path = "@ + json_quote(p@) + "\n"@,
        None => "# You can set a custom path for the log file.\n"@
            + "# path = \"/absolute/path/to/rataplay.log\"\n"@,
    }
}

/// A new configuration file holding `cfg`, with comments explaining every
/// setting.
pub open spec fn new_file_text(cfg: Config, os: TargetOs) -> Seq<char> {
    general_part(cfg) + executables_part(cfg) + cookies_part(cfg) + logging_part(cfg, os)
}

/// A text found in `x` is found in `x + y`.
proof fn lemma_contains_left(x: Seq<char>, y: Seq<char>, p: Seq<char>)
    requires
        contains(x, p),
    ensures
        contains(x + y, p),
{
    let i = choose|i: int| occurs_at(x, p, i);
    assert((x + y).subrange(i, i + p.len()) =~= x.subrange(i, i + p.len()));
    assert(occurs_at(x + y, p, i));
}

/// A text found in `y` is found in `x + y`.
proof fn lemma_contains_right(x: Seq<char>, y: Seq<char>, p: Seq<char>)
    requires
        contains(y, p),
    ensures
        contains(x + y, p),
{
    let i = choose|i: int| occurs_at(y, p, i);
    assert((x + y).subrange(x.len() + i, x.len() + i + p.len()) =~= y.subrange(i, i + p.len()));
    assert(occurs_at(x + y, p, x.len() + i));
}

/// An entry of a new file holds its setting's line: the prefix, the value
/// and a line end.
proof fn lemma_entry_line(comment: Seq<char>, prefix: Seq<char>, value: Seq<char>)
    ensures
        contains(entry(comment, prefix, value), prefix + value + "\n"@),
{
    reveal_strlit("\n\n");
    reveal_strlit("\n");
    let e = entry(comment, prefix, value);
    let p = prefix + value + "\n"@;
    assert(e.subrange(comment.len() as int, comment.len() + p.len() as int) =~= p);
    assert(occurs_at(e, p, comment.len() as int));
}

/// A new configuration file writes each top-level setting on a line of its
/// own with the configuration's value: the theme and the folder quoted as
/// JSON, the limits in decimal, the switches as `true` or `false`.
pub proof fn law_new_file_values(cfg: Config, os: TargetOs)
    ensures
        ({
            let text = new_file_text(cfg, os);
            &&& contains(text, "theme = "@ + json_quote(cfg.theme@) + "\n"@)
            &&& contains(text, "search_limit = "@ + decimal(cfg.search_limit as nat) + "\n"@)
            &&& contains(text, "playlist_limit = "@ + decimal(cfg.playlist_limit as nat) + "\n"@)
            &&& contains(text, "download_directory = "@ + json_quote(cfg.download_directory@) + "\n"@)
            &&& contains(text, "show_live = "@ + (if cfg.show_live { "true"@ } else { "false"@ }) + "\n"@)
            &&& contains(text, "show_playlists = "@ + (if cfg.show_playlists { "true"@ } else { "false"@ }) + "\n"@)
        }),
{
    let head = "# Rataplay Configuration\n\n"@;
    let c1 = "# The visual style of the application.\n# Available themes: \"Default\", \"Dracula\", \"Matrix\", \"Cyberpunk\", \"Catppuccin\"\n"@;
    let c2 = "# The number of results to fetch per search page or \"Load More\" action.\n"@;
    let c3 = "# The maximum number of videos to load when opening a playlist.\n"@;
    let c4 = "# The directory where videos and audio will be downloaded.\n"@;
    let c5 = "# The animation style for the logo.\n# Options: \"Wave\", \"Breathe\", \"Glitch\", \"Neon\", \"Static\"\n"@;
    let c6 = "# Whether to show live streams in search results.\n"@;
    let c7 = "# Whether to show playlists in search results.\n"@;
    let tail = "# --- Advanced Configuration ---\n\n"@;
    let e1 = entry(c1, "theme = "@, json_quote(cfg.theme@));
    let e2 = entry(c2, "search_limit = "@, decimal(cfg.search_limit as nat));
    let e3 = entry(c3, "playlist_limit = "@, decimal(cfg.playlist_limit as nat));
    let e4 = entry(c4, "download_directory = "@, json_quote(cfg.download_directory@));
    let e5 = entry(c5, "animation = "@, quoted(animation_name(cfg.animation)));
    let e6 = entry(c6, "show_live = "@, bool_text(cfg.show_live));
    let e7 = entry(c7, "show_playlists = "@, bool_text(cfg.show_playlists));
    let exe = executables_part(cfg);
    let ck = cookies_part(cfg);
    let lg = logging_part(cfg, os);
    let g0 = head;
    let g1 = g0 + e1;
    let g2 = g1 + e2;
    let g3 = g2 + e3;
    let g4 = g3 + e4;
    let g5 = g4 + e5;
    let g6 = g5 + e6;
    let g7 = g6 + e7;
    let g8 = g7 + tail;
    let g9 = g8 + exe;
    let g10 = g9 + ck;
    let g11 = g10 + lg;
    assert(new_file_text(cfg, os) == g11);
    lemma_entry_line(c1, "theme = "@, json_quote(cfg.theme@));
    lemma_contains_right(g0, e1, "theme = "@ + json_quote(cfg.theme@) + "\n"@);
    lemma_contains_left(g1, e2, "theme = "@ + json_quote(cfg.theme@) + "\n"@);
    lemma_contains_left(g2, e3, "theme = "@ + json_quote(cfg.theme@) + "\n"@);
    lemma_contains_left(g3, e4, "theme = "@ + json_quote(cfg.theme@) + "\n"@);
    lemma_contains_left(g4, e5, "theme = "@ + json_quote(cfg.theme@) + "\n"@);
    lemma_contains_left(g5, e6, "theme = "@ + json_quote(cfg.theme@) + "\n"@);
    lemma_contains_left(g6, e7, "theme = "@ + json_quote(cfg.theme@) + "\n"@);
    lemma_contains_left(g7, tail, "theme = "@ + json_quote(cfg.theme@) + "\n"@);
    lemma_contains_left(g8, exe, "theme = "@ + json_quote(cfg.theme@) + "\n"@);
    lemma_contains_left(g9, ck, "theme = "@ + json_quote(cfg.theme@) + "\n"@);
    lemma_contains_left(g10, lg, "theme = "@ + json_quote(cfg.theme@) + "\n"@);
    lemma_entry_line(c2, "search_limit = "@, decimal(cfg.search_limit as nat));
    lemma_contains_right(g1, e2, "search_limit = "@ + decimal(cfg.search_limit as nat) + "\n"@);
    lemma_contains_left(g2, e3, "search_limit = "@ + decimal(cfg.search_limit as nat) + "\n"@);
    lemma_contains_left(g3, e4, "search_limit = "@ + decimal(cfg.search_limit as nat) + "\n"@);
    lemma_contains_left(g4, e5, "search_limit = "@ + decimal(cfg.search_limit as nat) + "\n"@);
    lemma_contains_left(g5, e6, "search_limit = "@ + decimal(cfg.search_limit as nat) + "\n"@);
    lemma_contains_left(g6, e7, "search_limit = "@ + decimal(cfg.search_limit as nat) + "\n"@);
    lemma_contains_left(g7, tail, "search_limit = "@ + decimal(cfg.search_limit as nat) + "\n"@);
    lemma_contains_left(g8, exe, "search_limit = "@ + decimal(cfg.search_limit as nat) + "\n"@);
    lemma_contains_left(g9, ck, "search_limit = "@ + decimal(cfg.search_limit as nat) + "\n"@);
    lemma_contains_left(g10, lg, "search_limit = "@ + decimal(cfg.search_limit as nat) + "\n"@);
    lemma_entry_line(c3, "playlist_limit = "@, decimal(cfg.playlist_limit as nat));
    lemma_contains_right(g2, e3, "playlist_limit = "@ + decimal(cfg.playlist_limit as nat) + "\n"@);
    lemma_contains_left(g3, e4, "playlist_limit = "@ + decimal(cfg.playlist_limit as nat) + "\n"@);
    lemma_contains_left(g4, e5, "playlist_limit = "@ + decimal(cfg.playlist_limit as nat) + "\n"@);
    lemma_contains_left(g5, e6, "playlist_limit = "@ + decimal(cfg.playlist_limit as nat) + "\n"@);
    lemma_contains_left(g6, e7, "playlist_limit = "@ + decimal(cfg.playlist_limit as nat) + "\n"@);
    lemma_contains_left(g7, tail, "playlist_limit = "@ + decimal(cfg.playlist_limit as nat) + "\n"@);
    lemma_contains_left(g8, exe, "playlist_limit = "@ + decimal(cfg.playlist_limit as nat) + "\n"@);
    lemma_contains_left(g9, ck, "playlist_limit = "@ + decimal(cfg.playlist_limit as nat) + "\n"@);
    lemma_contains_left(g10, lg, "playlist_limit = "@ + decimal(cfg.playlist_limit as nat) + "\n"@);
    lemma_entry_line(c4, "download_directory = "@, json_quote(cfg.download_directory@));
    lemma_contains_right(g3, e4, "download_directory = "@ + json_quote(cfg.download_directory@) + "\n"@);
    lemma_contains_left(g4, e5, "download_directory = "@ + json_quote(cfg.download_directory@) + "\n"@);
    lemma_contains_left(g5, e6, "download_directory = "@ + json_quote(cfg.download_directory@) + "\n"@);
    lemma_contains_left(g6, e7, "download_directory = "@ + json_quote(cfg.download_directory@) + "\n"@);
    lemma_contains_left(g7, tail, "download_directory = "@ + json_quote(cfg.download_directory@) + "\n"@);
    lemma_contains_left(g8, exe, "download_directory = "@ + json_quote(cfg.download_directory@) + "\n"@);
    lemma_contains_left(g9, ck, "download_directory = "@ + json_quote(cfg.download_directory@) + "\n"@);
    lemma_contains_left(g10, lg, "download_directory = "@ + json_quote(cfg.download_directory@) + "\n"@);
    lemma_entry_line(c6, "show_live = "@, bool_text(cfg.show_live));
    lemma_contains_right(g5, e6, "show_live = "@ + bool_text(cfg.show_live) + "\n"@);
    lemma_contains_left(g6, e7, "show_live = "@ + bool_text(cfg.show_live) + "\n"@);
    lemma_contains_left(g7, tail, "show_live = "@ + bool_text(cfg.show_live) + "\n"@);
    lemma_contains_left(g8, exe, "show_live = "@ + bool_text(cfg.show_live) + "\n"@);
    lemma_contains_left(g9, ck, "show_live = "@ + bool_text(cfg.show_live) + "\n"@);
    lemma_contains_left(g10, lg, "show_live = "@ + bool_text(cfg.show_live) + "\n"@);
    lemma_entry_line(c7, "show_playlists = "@, bool_text(cfg.show_playlists));
    lemma_contains_right(g6, e7, "show_playlists = "@ + bool_text(cfg.show_playlists) + "\n"@);
    lemma_contains_left(g7, tail, "show_playlists = "@ + bool_text(cfg.show_playlists) + "\n"@);
    lemma_contains_left(g8, exe, "show_playlists = "@ + bool_text(cfg.show_playlists) + "\n"@);
    lemma_contains_left(g9, ck, "show_playlists = "@ + bool_text(cfg.show_playlists) + "\n"@);
    lemma_contains_left(g10, lg, "show_playlists = "@ + bool_text(cfg.show_playlists) + "\n"@);
}

fn put_entry(out: &mut String, comment: &str, prefix: &str, value: &str)
    ensures
        final(out)@ == old(out)@ + entry(comment@, prefix@, value@),
{
    out.append(comment);
    out.append(prefix);
    out.append(value);
    out.append("\n\n");
    assert(final_eq(out@, old(out)@ + entry(comment@, prefix@, value@)));
}

fn bool_string(b: bool) -> (r: String)
    ensures
        r@ == bool_text(b),
{
    let mut r = String::new();
    push_bool(&mut r, b);
    assert(final_eq(r@, bool_text(b)));
    r
}

#[verifier::rlimit(30)]
fn put_general(out: &mut String, cfg: &Config)
    ensures
        final(out)@ == old(out)@ + general_part(*cfg),
{
    let ghost o = out@;
    out.append("# Rataplay Configuration\n\n");
    put_entry(
        out,
        "# The visual style of the application.\n# Available themes: \"Default\", \"Dracula\", \"Matrix\", \"Cyberpunk\", \"Catppuccin\"\n",
        "theme = ",
        json_string(cfg.theme.as_str()).as_str(),
    );
    put_entry(
        out,
        "# The number of results to fetch per search page or \"Load More\" action.\n",
        "search_limit = ",
        crate::text::u64_to_string(cfg.search_limit as u64).as_str(),
    );
    put_entry(
        out,
        "# The maximum number of videos to load when opening a playlist.\n",
        "playlist_limit = ",
        crate::text::u64_to_string(cfg.playlist_limit as u64).as_str(),
    );
    put_entry(
        out,
        "# The directory where videos and audio will be downloaded.\n",
        "download_directory = ",
        json_string(cfg.download_directory.as_str()).as_str(),
    );
    let mut anim = String::new();
    push_char(&mut anim, '"');
    anim.append(cfg.animation.name());
    push_char(&mut anim, '"');
    assert(final_eq(anim@, quoted(animation_name(cfg.animation))));
    put_entry(
        out,
        "# The animation style for the logo.\n# Options: \"Wave\", \"Breathe\", \"Glitch\", \"Neon\", \"Static\"\n",
        "animation = ",
        anim.as_str(),
    );
    put_entry(
        out,
        "# Whether to show live streams in search results.\n",
        "show_live = ",
        bool_string(cfg.show_live).as_str(),
    );
    put_entry(
        out,
        "# Whether to show playlists in search results.\n",
        "show_playlists = ",
        bool_string(cfg.show_playlists).as_str(),
    );
    out.append("# --- Advanced Configuration ---\n\n");
    assert(final_eq(out@, o + general_part(*cfg)));
}

spec fn final_eq(a: Seq<char>, b: Seq<char>) -> bool {
    a =~= b
}

fn put_exe_line(out: &mut String, key: &str, path: &Option<String>, example: &str)
    ensures
        final(out)@ == old(out)@ + exe_line(key@, *path, example@),
{
    match path {
        Some(p) => {
            out.append(key);
            out.append(" = ");
            out.append(json_string(p.as_str()).as_str());
            out.append("\n");
        },
        None => {
            out.append("# ");
            out.append(key);
            out.append(" = \"");
            out.append(example);
            out.append("\"\n");
        },
    }
    assert(final_eq(out@, old(out)@ + exe_line(key@, *path, example@)));
}

fn put_executables(out: &mut String, cfg: &Config)
    ensures
        final(out)@ == old(out)@ + executables_part(*cfg),
{
    out.append("[executables]\n");
    out.append("enabled = ");
    push_bool(out, cfg.executables.enabled);
    out.append("\n");
    out.append("# Absolute paths to binaries. If commented out, system PATH is used.\n");
    put_exe_line(out, "mpv", &cfg.executables.mpv, "/usr/bin/mpv");
    put_exe_line(out, "ytdlp", &cfg.executables.ytdlp, "/usr/bin/yt-dlp");
    put_exe_line(out, "ffmpeg", &cfg.executables.ffmpeg, "/usr/bin/ffmpeg");
    put_exe_line(out, "deno", &cfg.executables.deno, "/usr/bin/deno");
    out.append("\n");
    assert(final_eq(out@, old(out)@ + executables_part(*cfg)));
}

fn put_cookies(out: &mut String, cfg: &Config)
    ensures
        final(out)@ == old(out)@ + cookies_part(*cfg),
{
    out.append("[cookies]\n");
    out.append("# This section configures how yt-dlp accesses cookies for protected content (like Watch Later).\n");
    out.append("enabled = ");
    push_bool(out, cfg.cookies.enabled);
    out.append("\n");
    out.append("# \n# --- How to configure ---\n# 1. Browser: Use cookies from your installed browser.\n# Please keep in mind that you have to install secretstorage to use this feature.\n#    source.type = \"browser\"\n#    source.value = \"chrome\"  # Options: chrome, firefox, edge, safari, opera, vivaldi, brave\n# \n# 2. Netscape: Use a Netscape-formatted cookie file.\n#    source.type = \"netscape\"\n#    source.value = \"/path/to/cookies.txt\"\n# \n# 3. JSON: Use a JSON-formatted cookie file.\n#    source.type = \"json\"\n#    source.value = \"/path/to/cookies.json\"\n# ------------------------\n\n");
    let ghost mid = out@;
    match &cfg.cookies.source {
        CookieSource::Off => {
            out.append("# source.type = \"\"\n# source.value = \"\"\n");
        },
        CookieSource::Browser(n) => {
            out.append("#source.type = \"browser\"\n");
            out.append("#source.value = ");
            out.append(json_string(n.as_str()).as_str());
            out.append("\n");
        },
        CookieSource::Netscape(p) => {
            out.append("#source.type = \"netscape\"\n");
            out.append("#source.value = ");
            out.append(json_string(p.as_str()).as_str());
            out.append("\n");
        },
        CookieSource::Json(p) => {
            out.append("#source.type = \"json\"\n");
            out.append("#source.value = ");
            out.append(json_string(p.as_str()).as_str());
            out.append("\n");
        },
    }
    assert(final_eq(out@, mid + source_lines(cfg.cookies.source)));
    out.append("\n");
    assert(final_eq(out@, old(out)@ + cookies_part(*cfg)));
}

fn put_logging(out: &mut String, cfg: &Config, os: TargetOs)
    ensures
        final(out)@ == old(out)@ + logging_part(*cfg, os),
{
    out.append("[logging]\n");
    out.append("# Whether to enable application logging.\n");
    out.append("enabled = ");
    push_bool(out, cfg.logging.enabled);
    out.append("\n");
    out.append("# The default location of log file is:\n");
    let ghost a = out@;
    match os {
        TargetOs::Linux => out.append("# Linux:   ~/.local/state/rataplay/rataplay.log\n"),
        TargetOs::Windows => out.append("# Windows: %LOCALAPPDATA%/rataplay/logs/rataplay.log\n"),
        TargetOs::MacOs => out.append("# macOS:   ~/Library/Logs/rataplay/rataplay.log\n"),
        TargetOs::Other => {},
    }
    assert(final_eq(out@, a + log_location_line(os)));
    let ghost b = out@;
    match &cfg.logging.path {
        Some(p) => {
            out.append("path = ");
            out.append(json_string(p.as_str()).as_str());
            out.append("\n");
        },
        None => {
            out.append("# You can set a custom path for the log file.\n");
            out.append("# path = \"/absolute/path/to/rataplay.log\"\n");
        },
    }
    assert(final_eq(out@, old(out)@ + logging_part(*cfg, os)));
}

impl Config {
    /// The text of a new configuration file holding this configuration,
    /// for a program built for `os`.
    pub fn new_file_content(&self, os: TargetOs) -> (r: String)
        ensures
            r@ == new_file_text(*self, os),
    {
        let mut out = String::new();
        put_general(&mut out, self);
        put_executables(&mut out, self);
        put_cookies(&mut out, self);
        put_logging(&mut out, self, os);
        assert(final_eq(out@, new_file_text(*self, os)));
        out
    }

    /// What saving writes: the existing file's text with the values renewed
    /// when there is a readable file, else a new file.
    pub fn file_content(&self, existing: Option<&str>, os: TargetOs) -> (r: String)
        ensures
            existing matches Some(e) ==> r@ == refreshed_file(*self, e@),
            existing is None ==> r@ == new_file_text(*self, os),
    {
        match existing {
            Some(e) => self.update_content_preservative(e),
            None => self.new_file_content(os),
        }
    }
}

} // verus!
