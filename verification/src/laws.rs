//! What holds across the operations of the application.
use vstd::prelude::*;
use crate::text::{decimal, digit, all_digits, digits_value, parse_u32_text, opt_text, starts_with};
use crate::model::{DownloadStatus, DownloadEvent};
use crate::state::Effect;
use crate::app::{App, Prefs, lemma_theme_in_table, next_animation_chosen, theme_changed, stopped, pause_toggled, search_started, refiltered, on_off};
use crate::keys::{toggled, drop_all};
use crate::events::{SearchResult, search_reported, details_arrived, has_text, texts_without};
use crate::reports::download_reported;
use crate::manager::without;
use crate::yt::{split_target, first_index_of};
use crate::editing::{setting_chosen, value_committed};
use crate::widgets::{SettingItem, next_animation};

verus! {

/// No value occurs twice in `v`.
pub open spec fn distinct(v: Seq<usize>) -> bool {
    forall|i: int, j: int| 0 <= i < j < v.len() ==> v[i] != v[j]
}

/// Cycling the colour theme five times comes back to the theme one
/// started from, with nothing else changed but the status line.
pub proof fn law_theme_cycle(
    a0: App, a1: App, a2: App, a3: App, a4: App, a5: App,
    e0: Seq<Effect>, e1: Seq<Effect>, e2: Seq<Effect>, e3: Seq<Effect>, e4: Seq<Effect>,
)
    requires
        theme_changed(a0, a1, e0),
        theme_changed(a1, a2, e1),
        theme_changed(a2, a3, e2),
        theme_changed(a3, a4, e3),
        theme_changed(a4, a5, e4),
    ensures
        a5.prefs.theme_index@ == a0.prefs.theme_index@,
        a5 == (App {
            prefs: Prefs { theme_index: a5.prefs.theme_index, ..a0.prefs },
            status_message: a5.status_message,
            ..a0
        }),
{
    lemma_theme_in_table(a0.prefs.theme_index);
}

/// Cycling the logo animation five times comes back to the animation one
/// started from, with nothing else changed but the status line.
pub proof fn law_animation_cycle(
    a0: App, a1: App, a2: App, a3: App, a4: App, a5: App,
    e0: Seq<Effect>, e1: Seq<Effect>, e2: Seq<Effect>, e3: Seq<Effect>, e4: Seq<Effect>,
)
    requires
        next_animation_chosen(a0, a1, e0),
        next_animation_chosen(a1, a2, e1),
        next_animation_chosen(a2, a3, e2),
        next_animation_chosen(a3, a4, e3),
        next_animation_chosen(a4, a5, e4),
    ensures
        a5 == (App { status_message: a5.status_message, ..a0 }),
{
    assert(next_animation(next_animation(next_animation(next_animation(next_animation(a0.prefs.animation_mode)))))
        == a0.prefs.animation_mode);
}

/// Switching the live stream filter twice gives back the choices one
/// started from.
pub proof fn law_live_filter_twice(a: App, b: App, c: App, e1: Seq<Effect>, e2: Seq<Effect>)
    requires
        refiltered(a, b, e1, Prefs { show_live: !a.prefs.show_live, ..a.prefs }, "Show Live: "@ + on_off(!a.prefs.show_live)),
        refiltered(b, c, e2, Prefs { show_live: !b.prefs.show_live, ..b.prefs }, "Show Live: "@ + on_off(!b.prefs.show_live)),
    ensures
        c.prefs == a.prefs,
{
}

/// Switching the playlist filter twice gives back the choices one started
/// from.
pub proof fn law_playlist_filter_twice(a: App, b: App, c: App, e1: Seq<Effect>, e2: Seq<Effect>)
    requires
        refiltered(
            a,
            b,
            e1,
            Prefs { show_playlists: !a.prefs.show_playlists, ..a.prefs },
            "Show Playlists: "@ + on_off(!a.prefs.show_playlists),
        ),
        refiltered(
            b,
            c,
            e2,
            Prefs { show_playlists: !b.prefs.show_playlists, ..b.prefs },
            "Show Playlists: "@ + on_off(!b.prefs.show_playlists),
        ),
    ensures
        c.prefs == a.prefs,
{
}

proof fn lemma_drop_all(v: Seq<usize>, x: usize, y: usize)
    ensures
        drop_all(v, x).contains(y) <==> (v.contains(y) && y != x),
    decreases v.len(),
{
    if v.len() > 0 {
        lemma_drop_all(v.drop_last(), x, y);
        if v.contains(y) && y != x {
            let k = choose|k: int| 0 <= k < v.len() && v[k] == y;
            if k < v.len() - 1 {
                assert(v.drop_last()[k] == y);
            }
        }
        if v.drop_last().contains(y) {
            let k = choose|k: int| 0 <= k < v.drop_last().len() && v.drop_last()[k] == y;
            assert(v[k] == y);
        }
        if drop_all(v, x).contains(y) && v.last() != x {
            let k = choose|k: int| 0 <= k < drop_all(v, x).len() && drop_all(v, x)[k] == y;
            if k < drop_all(v, x).len() - 1 {
                assert(drop_all(v.drop_last(), x)[k] == y);
            } else {
                assert(v[v.len() - 1] == y);
            }
        }
        if v.last() != x {
            let w = drop_all(v.drop_last(), x);
            if y == v.last() {
                assert(w.push(v.last())[w.len() as int] == y);
            } else if w.contains(y) {
                let k = choose|k: int| 0 <= k < w.len() && w[k] == y;
                assert(w.push(v.last())[k] == y);
            }
        }
    }
}

proof fn lemma_drop_all_distinct(v: Seq<usize>, x: usize)
    requires
        distinct(v),
    ensures
        distinct(drop_all(v, x)),
    decreases v.len(),
{
    if v.len() > 0 {
        let u = v.drop_last();
        assert(distinct(u));
        lemma_drop_all_distinct(u, x);
        if v.last() != x {
            let w = drop_all(u, x);
            assert forall|i: int, j: int| 0 <= i < j < w.push(v.last()).len() implies w.push(v.last())[i] != w.push(v.last())[j] by {
                if j == w.len() {
                    lemma_drop_all(u, x, w[i]);
                    assert(w.contains(w[i]));
                    let k = choose|k: int| 0 <= k < u.len() && u[k] == w[i];
                    assert(v[k] == u[k]);
                }
            }
        }
    }
}

/// Marking a result or a download twice for a batch leaves the same set
/// marked, and a set of marks never holds a position twice.
pub proof fn law_mark_twice(v: Seq<usize>, x: usize)
    requires
        distinct(v),
    ensures
        distinct(toggled(v, x)),
        forall|y: usize| #[trigger] toggled(toggled(v, x), x).contains(y) <==> v.contains(y),
{
    if v.contains(x) {
        lemma_drop_all_distinct(v, x);
        let w = drop_all(v, x);
        lemma_drop_all(v, x, x);
        assert(!w.contains(x));
        assert forall|y: usize| #[trigger] toggled(w, x).contains(y) <==> v.contains(y) by {
            lemma_drop_all(v, x, y);
            if y == x {
                assert(w.push(x)[w.len() as int] == x);
            } else if w.contains(y) {
                let k = choose|k: int| 0 <= k < w.len() && w[k] == y;
                assert(w.push(x)[k] == y);
            } else if w.push(x).contains(y) {
                let k = choose|k: int| 0 <= k < w.push(x).len() && w.push(x)[k] == y;
                assert(k < w.len());
                assert(w[k] == y);
            }
        }
    } else {
        let w = v.push(x);
        assert(w.contains(x)) by {
            assert(w[v.len() as int] == x);
        }
        assert forall|i: int, j: int| 0 <= i < j < w.len() implies w[i] != w[j] by {
            if j == v.len() {
                assert(v[i] == w[i]);
            }
        }
        assert forall|y: usize| #[trigger] toggled(w, x).contains(y) <==> v.contains(y) by {
            lemma_drop_all(w, x, y);
            if v.contains(y) {
                let k = choose|k: int| 0 <= k < v.len() && v[k] == y;
                assert(w[k] == y);
            }
            if w.contains(y) && y != x {
                let k = choose|k: int| 0 <= k < w.len() && w[k] == y;
                assert(k < v.len());
                assert(v[k] == y);
            }
        }
    }
}

/// Stopping the player a second time changes nothing but the status line,
/// which still says `Stopped.`.
pub proof fn law_stop_twice(a: App, b: App, c: App)
    requires
        stopped(a, b),
        stopped(b, c),
    ensures
        c == (App { status_message: c.status_message, ..b }),
        opt_text(c.status_message) == opt_text(b.status_message),
{
}

/// Pausing twice gives back the player as it was.
pub proof fn law_pause_twice(a: App, b: App, c: App, e1: Seq<Effect>, e2: Seq<Effect>)
    requires
        pause_toggled(a, b, e1),
        pause_toggled(b, c, e2),
    ensures
        c.playback == a.playback,
{
}

/// Once a new search started, whatever the previous search still reports
/// is dropped.
pub proof fn law_stale_reports_dropped(a: App, b: App, e: Seq<Effect>, c: App, e2: Seq<Effect>, r: SearchResult)
    requires
        search_started(a, b, e),
        search_reported(b, c, e2, a.results.search_id, r),
    ensures
        c == b,
        e2.len() == 0,
{
    assert(b.results.search_id != a.results.search_id) by {
        let n = a.results.search_id as int;
        if n + 1 < 0x1_0000_0000_0000_0000 {
            assert((n + 1) % 0x1_0000_0000_0000_0000 == n + 1);
        } else {
            assert((n + 1) % 0x1_0000_0000_0000_0000 == 0);
        }
    }
}

proof fn lemma_texts_without(s: Seq<String>, t: Seq<char>)
    ensures
        !has_text(texts_without(s, t), t),
    decreases s.len(),
{
    if s.len() > 0 {
        lemma_texts_without(s.drop_last(), t);
        let w = texts_without(s.drop_last(), t);
        if s.last()@ != t {
            if has_text(w.push(s.last()), t) {
                let k = choose|k: int| 0 <= k < w.push(s.last()).len() && #[trigger] w.push(s.last())[k]@ == t;
                assert(w[k]@ == t);
            }
        }
    }
}

/// Once the full record of a video arrived, its address is no longer among
/// the details waited for.
pub proof fn law_details_not_pending(a: App, b: App, e: Seq<Effect>, v: crate::model::Video)
    requires
        details_arrived(a, b, e, v),
    ensures
        !has_text(b.results.pending_resolution_ids@, v.url@),
{
    lemma_texts_without(a.results.pending_resolution_ids@, v.url@);
}

proof fn lemma_without(o: Seq<Seq<char>>, id: Seq<char>)
    ensures
        !without(o, id).contains(id),
    decreases o.len(),
{
    if o.len() > 0 {
        lemma_without(o.drop_last(), id);
        let w = without(o.drop_last(), id);
        if o.last() != id && w.push(o.last()).contains(id) {
            let k = choose|k: int| 0 <= k < w.push(o.last()).len() && w.push(o.last())[k] == id;
            assert(w[k] == id);
        }
    }
}

/// A finished download is forgotten: it has no task and no place in the
/// order any more.
pub proof fn law_finished_forgotten(a: App, b: App, e: Seq<Effect>, id: String)
    requires
        download_reported(a, b, e, DownloadEvent::Finished(id)),
    ensures
        !b.downloads.manager@.0.dom().contains(id@),
        !b.downloads.manager@.1.contains(id@),
{
    lemma_without(a.downloads.manager@.1, id@);
}

/// A canceled download stays canceled whatever error its worker reports
/// afterwards.
pub proof fn law_canceled_not_failed(a: App, b: App, e: Seq<Effect>, id: String, error: String)
    requires
        a.downloads.manager@.0.dom().contains(id@),
        a.downloads.manager@.0[id@].status == DownloadStatus::Canceled,
        download_reported(a, b, e, DownloadEvent::Error(id, error)),
    ensures
        b.downloads.manager@ == a.downloads.manager@,
{
}

/// The target handed to the terminal player is split back into the stream
/// address and the user agent it was made of, for a web address without `|`.
pub proof fn law_terminal_target_round_trip(url: Seq<char>, agent: Seq<char>)
    requires
        starts_with(url, "http"@),
        !url.contains('|'),
    ensures
        split_target(url + "|"@ + agent) == (url, Some(agent)),
{
    reveal_strlit("|");
    reveal_strlit("http");
    let s = url + "|"@ + agent;
    let n = url.len() as int;
    assert(s[n] == '|');
    assert forall|j: int| 0 <= j < n implies s[j] != '|' by {
        assert(s[j] == url[j]);
        if s[j] == '|' {
            assert(url.contains('|'));
        }
    }
    assert(first_index_of(s, '|') == Some(n)) by {
        let k = choose|k: int| 0 <= k < s.len() && s[k] == '|' && forall|j: int| 0 <= j < k ==> s[j] != '|';
        if k < n {
        } else if k > n {
            assert(s[n] != '|');
        }
    }
    assert(s.take(4) =~= url.take(4));
    assert(s.take(n) =~= url);
    assert(s.skip(n + 1) =~= agent);
}

/// Opening a limit of the settings menu for editing and confirming the
/// value it shows, unchanged, keeps every choice as it was; confirming the
/// download directory unchanged keeps it too.
pub proof fn law_unchanged_setting_kept(a: App, b: App, c: App, e1: Seq<Effect>, e2: Seq<Effect>, item: SettingItem)
    requires
        item == SettingItem::SearchLimit || item == SettingItem::PlaylistLimit || item == SettingItem::DownloadDirectory,
        setting_chosen(a, b, e1, item),
        value_committed(b, c, e2),
    ensures
        item != SettingItem::DownloadDirectory ==> c.prefs == a.prefs,
        item == SettingItem::DownloadDirectory ==> c.prefs.download_directory@ == a.prefs.download_directory@,
{
    law_number_round_trip(a.prefs.search_limit);
    law_number_round_trip(a.prefs.playlist_limit);
}

proof fn lemma_decimal(n: nat)
    ensures
        decimal(n).len() > 0,
        all_digits(decimal(n)),
        digits_value(decimal(n)) == n,
    decreases n,
{
    if n >= 10 {
        lemma_decimal(n / 10);
        let d = decimal(n / 10);
        let c = digit(n % 10);
        assert(decimal(n) == d.push(c));
        assert(d.push(c).drop_last() =~= d);
        assert((c as nat) == 48 + n % 10);
        assert(digits_value(d.push(c)) == digits_value(d) * 10 + ((c as nat) - 48));
        assert((n / 10) * 10 + n % 10 == n);
        assert forall|i: int| 0 <= i < d.push(c).len() implies '0' <= #[trigger] d.push(c)[i] <= '9' by {
            if i < d.len() {
                assert(d.push(c)[i] == d[i]);
            }
        }
        assert(digits_value(d) == n / 10);
        assert(digits_value(d.push(c)) == n);
    } else {
        let c = digit(n);
        assert(decimal(n) == seq![c]);
        assert(seq![c].drop_last() =~= Seq::<char>::empty());
        assert((c as nat) == 48 + n);
        assert(digits_value(seq![c]) == digits_value(Seq::<char>::empty()) * 10 + ((c as nat) - 48));
        assert(digits_value(seq![c]) == n);
    }
}

/// A number written in decimal reads back as the same number: a limit
/// shown in the settings menu and confirmed unchanged keeps its value.
pub proof fn law_number_round_trip(n: u32)
    ensures
        parse_u32_text(decimal(n as nat)) == Some(n),
{
    lemma_decimal(n as nat);
    let s = decimal(n as nat);
    assert('0' <= s[0] <= '9');
    assert(s[0] != '+');
    assert(digits_value(s) <= u32::MAX);
    assert(s.len() > 0 && all_digits(s));
    assert(parse_u32_text(s) == Some(digits_value(s) as u32));
}

} // verus!
