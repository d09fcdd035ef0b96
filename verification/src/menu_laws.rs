//! What holds of every action menu, whatever the state.
use vstd::prelude::*;
use vstd::seq_lib::lemma_no_dup_in_concat;
use crate::state::{AppState, AppAction, Key};
use crate::app::{App, Downloads, Results};
use crate::actions::{
    Entry, available_actions, menu_context, selected_file, file_entries, download_entries, panel_entries,
    result_entries, results_entries, has_playlist_download,
};

verus! {

/// The keys of the entries, in order.
pub open spec fn keys(s: Seq<Entry>) -> Seq<Key> {
    s.map_values(|e: Entry| e.0)
}

/// An action that acts on a result rather than on the downloads panel.
pub open spec fn result_action(x: AppAction) -> bool {
    ||| x == AppAction::WatchExternal
    ||| x == AppAction::WatchInTerminal
    ||| x == AppAction::ListenAudio
    ||| x == AppAction::Download
    ||| x == AppAction::DownloadPlaylist
    ||| x == AppAction::DownloadSelected
    ||| x == AppAction::ViewPlaylist
    ||| x == AppAction::CopyUrlOrId
    ||| x == AppAction::OpenInBrowser
}

proof fn lemma_split(x: Seq<Entry>, y: Seq<Entry>)
    ensures
        keys(x + y) == keys(x) + keys(y),
{
    assert(keys(x + y) =~= keys(x) + keys(y));
}

/// A key of the entries for a file or a download.
spec fn item_key(k: Key) -> bool {
    k == Key::Char('w') || k == Key::Char('t') || k == Key::Char('a') || k == Key::Char('x') || k == Key::Char('p')
}

proof fn lemma_panel_keys(d: Downloads)
    requires
        !(d.selected_local is Some && d.selected is Some),
    ensures
        keys(panel_entries(d)).no_duplicates(),
{
    let f = file_entries(d);
    let dl = download_entries(d);
    let sel = if d.selected_set@.len() > 0 {
        seq![
            (Key::Char('P'), "Resume/Restart Selected"@, AppAction::ResumeSelectedDownloads),
            (Key::Char('X'), "Cancel Selected Downloads"@, AppAction::CancelSelectedDownloads),
        ]
    } else {
        Seq::empty()
    };
    let del = if d.selected_local_set@.len() > 0 {
        seq![(Key::Char('d'), "Delete Selected"@, AppAction::DeleteSelectedLocalFiles)]
    } else {
        Seq::empty()
    };
    let cl = seq![(Key::Char('c'), "Cleanup Garbage (.part, .ytdl)"@, AppAction::CleanupLocalGarbage)];
    assert(panel_entries(d) == f + dl + sel + del + cl);
    lemma_split(f, dl);
    lemma_split(f + dl, sel);
    lemma_split(f + dl + sel, del);
    lemma_split(f + dl + sel + del, cl);
    let kf = keys(f);
    let kd = keys(dl);
    assert(kf.no_duplicates() && kd.no_duplicates() && (kf.len() == 0 || kd.len() == 0)
        && (forall|i: int| 0 <= i < kf.len() ==> item_key(#[trigger] kf[i]))
        && (forall|i: int| 0 <= i < kd.len() ==> item_key(#[trigger] kd[i]))) by {
        match selected_file(d) {
            Some(g) => if !g.is_garbage {
                assert(kf =~= seq![Key::Char('w'), Key::Char('t'), Key::Char('a'), Key::Char('x')]);
            } else {
                assert(kf =~= seq![Key::Char('x')]);
            },
            None => assert(kf =~= Seq::<Key>::empty()),
        }
        if d.selected is Some {
            assert(kd =~= seq![Key::Char('p'), Key::Char('x')] || kd =~= seq![Key::Char('x')]);
        } else {
            assert(kd =~= Seq::<Key>::empty());
        }
    }
    lemma_no_dup_in_concat(kf, kd);
    let k1 = kf + kd;
    assert(forall|i: int| 0 <= i < k1.len() ==> item_key(#[trigger] k1[i]));
    let ks = keys(sel);
    assert(ks =~= seq![Key::Char('P'), Key::Char('X')] || ks =~= Seq::<Key>::empty());
    lemma_no_dup_in_concat(k1, ks);
    let k2 = k1 + ks;
    assert(forall|i: int| 0 <= i < k2.len() ==> #[trigger] k2[i] != Key::Char('d') && k2[i] != Key::Char('c'));
    let kdel = keys(del);
    assert(kdel =~= seq![Key::Char('d')] || kdel =~= Seq::<Key>::empty());
    lemma_no_dup_in_concat(k2, kdel);
    let k3 = k2 + kdel;
    assert(forall|i: int| 0 <= i < k3.len() ==> #[trigger] k3[i] != Key::Char('c'));
    let kc = keys(cl);
    assert(kc =~= seq![Key::Char('c')]);
    lemma_no_dup_in_concat(k3, kc);
}


/// At most one of the entries downloads a playlist.
pub open spec fn one_playlist_download(s: Seq<Entry>) -> bool {
    forall|i: int, j: int|
        0 <= i < j < s.len() ==> !(#[trigger] s[i].2 == AppAction::DownloadPlaylist && #[trigger] s[j].2
            == AppAction::DownloadPlaylist)
}

/// Every entry under `l` downloads a playlist.
spec fn l_downloads(s: Seq<Entry>) -> bool {
    forall|i: int| 0 <= i < s.len() && #[trigger] s[i].0 == Key::Char('l') ==> s[i].2 == AppAction::DownloadPlaylist
}

proof fn lemma_results_keys(r: Results)
    ensures
        keys(results_entries(r)).no_duplicates(),
        one_playlist_download(results_entries(r)),
{
    let re = result_entries(r);
    let s_part = if r.selected_playlist_indices@.len() > 0 {
        seq![(Key::Char('s'), "Download Selected"@, AppAction::DownloadSelected)]
    } else {
        Seq::empty()
    };
    let first = re + s_part;
    lemma_split(re, s_part);
    assert(keys(re).no_duplicates() && l_downloads(re) && one_playlist_download(re)
        && (forall|i: int| 0 <= i < keys(re).len() ==> #[trigger] keys(re)[i] != Key::Char('s'))) by {
        match crate::keys::selected_result(r) {
            Some(v) => if v.video_type == crate::model::VideoType::Playlist {
                assert(keys(re) =~= seq![Key::Enter, Key::Char('l')]);
            } else if v.parent_playlist_id is Some {
                assert(keys(re) =~= seq![
                    Key::Char('w'), Key::Char('t'), Key::Char('a'), Key::Char('d'), Key::Char('o'), Key::Char('c'),
                    Key::Char('p'), Key::Char('l'),
                ]);
            } else {
                assert(keys(re) =~= seq![
                    Key::Char('w'), Key::Char('t'), Key::Char('a'), Key::Char('d'), Key::Char('o'), Key::Char('c'),
                ]);
            },
            None => assert(keys(re) =~= Seq::<Key>::empty()),
        }
    }
    assert(keys(s_part) =~= seq![Key::Char('s')] || keys(s_part) =~= Seq::<Key>::empty());
    lemma_no_dup_in_concat(keys(re), keys(s_part));
    assert(l_downloads(first)) by {
        assert forall|i: int| 0 <= i < first.len() && #[trigger] first[i].0 == Key::Char('l') implies first[i].2
            == AppAction::DownloadPlaylist by {
            assert(i < re.len());
            assert(re[i] == first[i]);
        }
    }
    assert(one_playlist_download(first)) by {
        assert forall|i: int, j: int| 0 <= i < j < first.len() implies !(#[trigger] first[i].2
            == AppAction::DownloadPlaylist && #[trigger] first[j].2 == AppAction::DownloadPlaylist) by {
            if j >= re.len() {
                assert(first[j] == s_part[j - re.len()]);
            } else {
                assert(first[i] == re[i] && first[j] == re[j]);
            }
        }
    }
    if r.playlist_stack@.len() > 0 && !has_playlist_download(first) {
        let add = (Key::Char('l'), "Download All (Current View)"@, AppAction::DownloadPlaylist);
        assert(results_entries(r) == first.push(add));
        assert(first.push(add) =~= first + seq![add]);
        lemma_split(first, seq![add]);
        assert(keys(seq![add]) =~= seq![Key::Char('l')]);
        assert forall|i: int| 0 <= i < keys(first).len() implies #[trigger] keys(first)[i] != Key::Char('l') by {
            if first[i].0 == Key::Char('l') {
                assert(first[i].2 == AppAction::DownloadPlaylist);
            }
        }
        lemma_no_dup_in_concat(keys(first), keys(seq![add]));
        assert(one_playlist_download(first.push(add))) by {
            assert forall|i: int, j: int| 0 <= i < j < first.push(add).len() implies !(
            #[trigger] first.push(add)[i].2 == AppAction::DownloadPlaylist && #[trigger] first.push(add)[j].2
                == AppAction::DownloadPlaylist) by {
                if j < first.len() {
                    assert(first.push(add)[i] == first[i] && first.push(add)[j] == first[j]);
                } else {
                    assert(first.push(add)[i] == first[i]);
                }
            }
        }
    } else {
        assert(results_entries(r) == first);
    }
}

/// The menu offers each key once, so that a key picks one entry (the menu
/// over a selected file and a selected download at once offers `x` twice),
/// and it offers at most one download of a playlist.
pub proof fn law_menu_keys_distinct(a: App)
    requires
        !(a.downloads.selected_local is Some && a.downloads.selected is Some),
    ensures
        keys(available_actions(a)).no_duplicates(),
        one_playlist_download(available_actions(a)),
{
    if menu_context(a) == AppState::Downloads {
        lemma_panel_keys(a.downloads);
    } else {
        lemma_results_keys(a.results);
    }
}

/// The menu open over a screen offers what that screen offers.
pub proof fn law_menu_over_screen(a: App)
    requires
        a.state == AppState::ActionMenu,
    ensures
        available_actions(a) == available_actions(App { state: a.previous_app_state, ..a }),
{
}

/// Over the downloads panel the menu ends with cleaning up leftovers and
/// offers nothing that acts on a result.
pub proof fn law_panel_menu(a: App)
    requires
        menu_context(a) == AppState::Downloads,
    ensures
        available_actions(a).len() > 0,
        available_actions(a).last() == (Key::Char('c'), "Cleanup Garbage (.part, .ytdl)"@, AppAction::CleanupLocalGarbage),
        forall|i: int| 0 <= i < available_actions(a).len() ==> !result_action(#[trigger] available_actions(a)[i].2),
{
    let d = a.downloads;
    lemma_panel_actions(d);
}

proof fn lemma_panel_actions(d: Downloads)
    ensures
        forall|i: int| 0 <= i < panel_entries(d).len() ==> !result_action(#[trigger] panel_entries(d)[i].2),
{
    let f = file_entries(d);
    let dl = download_entries(d);
    let p = panel_entries(d);
    assert forall|i: int| 0 <= i < p.len() implies !result_action(#[trigger] p[i].2) by {
        if i < f.len() {
            assert(p[i] == f[i]);
        } else if i < f.len() + dl.len() {
            assert(p[i] == dl[i - f.len()]);
        }
    }
}

} // verus!
