//! Display helpers: text widths, truncation, dates, durations, sizes, and the
//! small enumerations the screens are built from.
use vstd::prelude::*;
use crate::text::{chars_of, string_of, push_char, push_decimal, push_decimal2, decimal, decimal2};

verus! {

broadcast use vstd::string::group_string_axioms;

/// Columns a character takes: two for the pictographs and symbols in
/// `U+1F300..=U+1F9FF` and `U+2600..=U+26FF`, one otherwise.
pub open spec fn char_width(c: char) -> nat {
    let u = c as u32;
    if (0x1F300 <= u <= 0x1F9FF) || (0x2600 <= u <= 0x26FF) {
        2
    } else {
        1
    }
}

/// Columns a string takes.
pub open spec fn str_width(s: Seq<char>) -> nat
    decreases s.len(),
{
    if s.len() == 0 {
        0
    } else {
        str_width(s.drop_last()) + char_width(s.last())
    }
}

/// The columns `c` takes.
pub fn width_of_char(c: char) -> (w: usize)
    ensures
        w == char_width(c),
{
    let u = c as u32;
    if (0x1F300 <= u && u <= 0x1F9FF) || (0x2600 <= u && u <= 0x26FF) {
        2
    } else {
        1
    }
}

/// Widths add up: the empty text takes no column, and a text made of two
/// parts takes the columns of both.
pub proof fn law_width_adds(a: Seq<char>, b: Seq<char>)
    ensures
        str_width(Seq::<char>::empty()) == 0,
        str_width(a + b) == str_width(a) + str_width(b),
    decreases b.len(),
{
    if b.len() > 0 {
        law_width_adds(a, b.drop_last());
        assert((a + b).drop_last() =~= a + b.drop_last());
        assert((a + b).last() == b.last());
    } else {
        assert(a + b =~= a);
    }
}

/// A text takes at least one column per character and at most two.
pub proof fn law_width_bounds(s: Seq<char>)
    ensures
        s.len() <= str_width(s) <= 2 * s.len(),
    decreases s.len(),
{
    if s.len() > 0 {
        law_width_bounds(s.drop_last());
    }
}

/// The number of terminal columns `s` takes.
pub fn get_width(s: &str) -> (w: usize)
    requires
        s@.len() <= usize::MAX / 4,
    ensures
        w == str_width(s@),
{
    let v = chars_of(s);
    let mut w: usize = 0;
    let mut i: usize = 0;
    while i < v.len()
        invariant
            i <= v.len(),
            v.len() <= usize::MAX / 4,
            w == str_width(v@.take(i as int)),
            w <= 2 * i,
            v@ == s@,
        decreases v.len() - i,
    {
        proof {
            law_width_bounds(v@.take(i + 1));
            assert(v@.take(i + 1).drop_last() =~= v@.take(i as int));
        }
        w = w + width_of_char(v[i]);
        i = i + 1;
    }
    assert(v@.take(v.len() as int) =~= v@);
    w
}

/// What is kept of `s` once `used` columns are taken: characters are kept
/// while three more columns are left for the ellipsis, which then ends it.
pub open spec fn truncated_from(s: Seq<char>, max: int, used: int) -> Seq<char>
    decreases s.len(),
{
    if s.len() == 0 {
        Seq::empty()
    } else if used + char_width(s[0]) + 3 > max {
        seq!['.', '.', '.']
    } else {
        seq![s[0]] + truncated_from(s.drop_first(), max, used + char_width(s[0]))
    }
}

/// `s` when it fits in `max` columns, else its longest start that leaves
/// room for `...`, followed by `...`.
pub open spec fn truncated(s: Seq<char>, max: int) -> Seq<char> {
    if str_width(s) <= max {
        s
    } else {
        truncated_from(s, max, 0)
    }
}

/// `s` cut to fit `max_width` columns, marked with `...` where it was cut.
pub fn truncate_str(s: &str, max_width: usize) -> (r: String)
    requires
        s@.len() <= usize::MAX / 4,
    ensures
        r@ == truncated(s@, max_width as int),
{
    let v = chars_of(s);
    let total = get_width(s);
    if total <= max_width {
        return string_of(v.as_slice());
    }
    assert(truncated(s@, max_width as int) == truncated_from(v@, max_width as int, 0));
    let mut r = String::new();
    let mut used: usize = 0;
    let mut i: usize = 0;
    assert(v@.skip(0) =~= v@);
    while i < v.len()
        invariant
            i <= v.len(),
            v.len() <= usize::MAX / 4,
            v@ == s@,
            truncated(s@, max_width as int) == truncated_from(v@, max_width as int, 0),
            used <= 2 * i,
            r@ + truncated_from(v@.skip(i as int), max_width as int, used as int) == truncated_from(
                v@,
                max_width as int,
                0,
            ),
        decreases v.len() - i,
    {
        let w = width_of_char(v[i]);
        assert(v@.skip(i as int).drop_first() =~= v@.skip(i + 1));
        if used + w + 3 > max_width {
            let ghost r0 = r@;
            assert(truncated_from(v@.skip(i as int), max_width as int, used as int) == seq!['.', '.', '.']);
            push_char(&mut r, '.');
            push_char(&mut r, '.');
            push_char(&mut r, '.');
            assert(r@ =~= r0 + seq!['.', '.', '.']);
            return r;
        }
        push_char(&mut r, v[i]);
        used = used + w;
        i = i + 1;
    }
    assert(r@ + Seq::empty() =~= r@);
    r
}

/// `m:ss` style duration: `h:mm:ss` from one hour on, `mm:ss` below it.
pub open spec fn duration_text(seconds: nat) -> Seq<char> {
    let h = seconds / 3600;
    let m = (seconds % 3600) / 60;
    let s = seconds % 60;
    if h > 0 {
        decimal(h) + seq![':'] + decimal2(m) + seq![':'] + decimal2(s)
    } else {
        decimal2(m) + seq![':'] + decimal2(s)
    }
}

/// A whole number of seconds written as `mm:ss`, or `h:mm:ss` from one hour on.
pub fn format_duration(seconds: u64) -> (r: String)
    ensures
        r@ == duration_text(seconds as nat),
{
    let h = seconds / 3600;
    let m = (seconds % 3600) / 60;
    let s = seconds % 60;
    let mut r = String::new();
    if h > 0 {
        push_decimal(&mut r, h);
        push_char(&mut r, ':');
    }
    push_decimal2(&mut r, m);
    push_char(&mut r, ':');
    push_decimal2(&mut r, s);
    proof {
        if h > 0 {
            assert(r@ =~= duration_text(seconds as nat));
        } else {
            assert(r@ =~= duration_text(seconds as nat));
        }
    }
    r
}

/// The animation styles of the greeting logo.
#[derive(Clone, Copy, Debug, PartialEq, Eq, Structural)]
pub enum AnimationMode {
    Wave,
    Breathe,
    Glitch,
    Neon,
    Static,
}

/// The animation modes in the order they are cycled through.
pub open spec fn animation_order() -> Seq<AnimationMode> {
    seq![
        AnimationMode::Wave,
        AnimationMode::Breathe,
        AnimationMode::Glitch,
        AnimationMode::Neon,
        AnimationMode::Static,
    ]
}

/// The display name of an animation mode.
pub open spec fn animation_name(m: AnimationMode) -> Seq<char> {
    match m {
        AnimationMode::Wave => "Wave"@,
        AnimationMode::Breathe => "Breathe"@,
        AnimationMode::Glitch => "Glitch"@,
        AnimationMode::Neon => "Neon"@,
        AnimationMode::Static => "Static"@,
    }
}

/// The mode after `m` in the cycle, wrapping from the last to the first.
pub open spec fn next_animation(m: AnimationMode) -> AnimationMode {
    match m {
        AnimationMode::Wave => AnimationMode::Breathe,
        AnimationMode::Breathe => AnimationMode::Glitch,
        AnimationMode::Glitch => AnimationMode::Neon,
        AnimationMode::Neon => AnimationMode::Static,
        AnimationMode::Static => AnimationMode::Wave,
    }
}

impl AnimationMode {
    /// The display name.
    pub fn name(&self) -> (s: &'static str)
        ensures
            s@ == animation_name(*self),
    {
        match self {
            AnimationMode::Wave => "Wave",
            AnimationMode::Breathe => "Breathe",
            AnimationMode::Glitch => "Glitch",
            AnimationMode::Neon => "Neon",
            AnimationMode::Static => "Static",
        }
    }

    /// All modes, in cycling order.
    pub fn all() -> (v: Vec<AnimationMode>)
        ensures
            v@ == animation_order(),
    {
        let v = vec![
            AnimationMode::Wave,
            AnimationMode::Breathe,
            AnimationMode::Glitch,
            AnimationMode::Neon,
            AnimationMode::Static,
        ];
        assert(v@ =~= animation_order());
        v
    }

    /// The next mode in the cycle.
    pub fn next(&self) -> (n: AnimationMode)
        ensures
            n == next_animation(*self),
    {
        match self {
            AnimationMode::Wave => AnimationMode::Breathe,
            AnimationMode::Breathe => AnimationMode::Glitch,
            AnimationMode::Glitch => AnimationMode::Neon,
            AnimationMode::Neon => AnimationMode::Static,
            AnimationMode::Static => AnimationMode::Wave,
        }
    }
}

/// Stepping to the next animation mode follows the order of `all()`: the
/// mode at position `i` is followed by the one at `i + 1`, and the last by
/// the first; five steps come back to the start.
pub proof fn law_animation_cycle(i: int, m: AnimationMode)
    requires
        0 <= i < 5,
    ensures
        next_animation(animation_order()[i]) == animation_order()[(i + 1) % 5],
        next_animation(next_animation(next_animation(next_animation(next_animation(m)))))
            == m,
{
}

/// The entries of the settings menu.
#[derive(Clone, Copy, Debug, PartialEq, Eq, Structural)]
pub enum SettingItem {
    Theme,
    Animation,
    SearchLimit,
    PlaylistLimit,
    DownloadDirectory,
    ShowLive,
    ShowPlaylists,
    EnableLogging,
    UseCustomPaths,
    CookieMode,
}

/// The settings menu, top to bottom.
pub open spec fn setting_order() -> Seq<SettingItem> {
    seq![
        SettingItem::Theme,
        SettingItem::Animation,
        SettingItem::SearchLimit,
        SettingItem::PlaylistLimit,
        SettingItem::DownloadDirectory,
        SettingItem::ShowLive,
        SettingItem::ShowPlaylists,
        SettingItem::EnableLogging,
        SettingItem::UseCustomPaths,
        SettingItem::CookieMode,
    ]
}

/// The label of a settings entry.
pub open spec fn setting_name(i: SettingItem) -> Seq<char> {
    match i {
        SettingItem::Theme => "Theme"@,
        SettingItem::Animation => "Logo Animation"@,
        SettingItem::SearchLimit => "Search Results Limit"@,
        SettingItem::PlaylistLimit => "Playlist Items Limit"@,
        SettingItem::DownloadDirectory => "Download Directory"@,
        SettingItem::ShowLive => "Show Live Streams"@,
        SettingItem::ShowPlaylists => "Show Playlists"@,
        SettingItem::EnableLogging => "Enable Logging"@,
        SettingItem::UseCustomPaths => "Use Custom Paths"@,
        SettingItem::CookieMode => "Cookie Mode"@,
    }
}

impl SettingItem {
    /// All entries, in menu order.
    pub fn all() -> (v: Vec<SettingItem>)
        ensures
            v@ == setting_order(),
    {
        let v = vec![
            SettingItem::Theme,
            SettingItem::Animation,
            SettingItem::SearchLimit,
            SettingItem::PlaylistLimit,
            SettingItem::DownloadDirectory,
            SettingItem::ShowLive,
            SettingItem::ShowPlaylists,
            SettingItem::EnableLogging,
            SettingItem::UseCustomPaths,
            SettingItem::CookieMode,
        ];
        assert(v@ =~= setting_order());
        v
    }

    /// The label shown in the menu.
    pub fn name(&self) -> (s: &'static str)
        ensures
            s@ == setting_name(*self),
    {
        match self {
            SettingItem::Theme => "Theme",
            SettingItem::Animation => "Logo Animation",
            SettingItem::SearchLimit => "Search Results Limit",
            SettingItem::PlaylistLimit => "Playlist Items Limit",
            SettingItem::DownloadDirectory => "Download Directory",
            SettingItem::ShowLive => "Show Live Streams",
            SettingItem::ShowPlaylists => "Show Playlists",
            SettingItem::EnableLogging => "Enable Logging",
            SettingItem::UseCustomPaths => "Use Custom Paths",
            SettingItem::CookieMode => "Cookie Mode",
        }
    }
}

/// The animated cat of the greeting screen, at a given frame.
pub struct Pet {
    pub frame_index: usize,
}

impl Pet {
    /// The cat at frame `frame_index`.
    pub fn new(frame_index: usize) -> (p: Pet)
        ensures
            p.frame_index == frame_index,
    {
        Pet { frame_index }
    }

    /// Which of the six cat drawings is shown.
    pub fn frame(&self) -> (f: usize)
        ensures
            f == self.frame_index % 6,
    {
        self.frame_index % 6
    }
}

} // verus!
