//! The download directory: which files are shown, how they are ordered and
//! sized, and which leftovers a cleanup removes.
use vstd::prelude::*;
use crate::text::{chars_of, ends_with, has_suffix, lower_str, lowered, decimal, digit, push_decimal, push_char, digit_char, same_chars};
use crate::model::{LocalFile, Video, VideoView, DownloadStatus};
use crate::yt::{or_empty, or_text, first_of};
use crate::json::{json_text_of, json_parses, json_is_document, json_str};

verus! {

broadcast use vstd::string::group_string_axioms;

/// A file seen in the download directory.
pub struct FileEntry {
    pub name: String,
    pub path: String,
    pub extension: String,
    pub size_bytes: u64,
    pub modified: u64,
}

/// A name the file list leaves out: partial downloads, temporary files and
/// the metadata that `yt-dlp` writes beside a download.
pub open spec fn is_garbage_name(name: Seq<char>) -> bool {
    ||| ends_with(name, ".part"@)
    ||| ends_with(name, ".ytdl"@)
    ||| ends_with(name, ".tmp"@)
    ||| ends_with(name, ".info.json"@)
    ||| ends_with(name, ".json"@)
}

/// A name a cleanup removes: partial downloads and temporary files (the
/// metadata files stay, as they describe downloads that can be resumed).
pub open spec fn is_cleanup_name(name: Seq<char>) -> bool {
    ||| ends_with(name, ".part"@)
    ||| ends_with(name, ".ytdl"@)
    ||| ends_with(name, ".tmp"@)
}

/// Whether `s` ends with the literal `suffix`.
fn ends_in(s: &[char], suffix: &str) -> (b: bool)
    ensures
        b == ends_with(s@, suffix@),
{
    let t = chars_of(suffix);
    has_suffix(s, t.as_slice())
}

/// Whether the file list leaves out a file of this name.
pub fn is_garbage_file(name: &str) -> (b: bool)
    ensures
        b == is_garbage_name(name@),
{
    let n = chars_of(name);
    ends_in(n.as_slice(), ".part") || ends_in(n.as_slice(), ".ytdl") || ends_in(n.as_slice(), ".tmp")
        || ends_in(n.as_slice(), ".info.json") || ends_in(n.as_slice(), ".json")
}

/// Whether a cleanup removes a file of this name.
pub fn is_cleanup_file(name: &str) -> (b: bool)
    ensures
        b == is_cleanup_name(name@),
{
    let n = chars_of(name);
    ends_in(n.as_slice(), ".part") || ends_in(n.as_slice(), ".ytdl") || ends_in(n.as_slice(), ".tmp")
}

/// The audio extensions the player treats as sound only.
pub open spec fn is_audio_ext(ext: Seq<char>) -> bool {
    ||| ext == "mp3"@
    ||| ext == "m4a"@
    ||| ext == "flac"@
    ||| ext == "wav"@
    ||| ext == "ogg"@
    ||| ext == "opus"@
    ||| ext == "aac"@
    ||| ext == "wma"@
}

/// Whether the extension, in lower case, names an audio format.
fn audio_ext(e: &[char]) -> (b: bool)
    ensures
        b == is_audio_ext(e@),
{
    let l = e;
    same_chars(l, chars_of("mp3").as_slice()) || same_chars(l, chars_of("m4a").as_slice())
        || same_chars(l, chars_of("flac").as_slice()) || same_chars(l, chars_of("wav").as_slice())
        || same_chars(l, chars_of("ogg").as_slice()) || same_chars(l, chars_of("opus").as_slice())
        || same_chars(l, chars_of("aac").as_slice()) || same_chars(l, chars_of("wma").as_slice())
}

impl LocalFile {
    /// Whether the file is sound only, judged by its extension in any case.
    ///
    /// The extension is lowered letter by letter in ASCII; no other
    /// character lowers to one of the letters these extensions use.
    pub fn is_audio(&self) -> (b: bool)
        ensures
            b == is_audio_ext(lower_str(self.extension@)),
    {
        let e = lowered(chars_of(self.extension.as_str()).as_slice());
        audio_ext(e.as_slice())
    }
}

/// Whether a path, in any case, ends in an audio extension.
pub open spec fn is_audio_path_text(path: Seq<char>) -> bool {
    let l = lower_str(path);
    ||| ends_with(l, ".mp3"@)
    ||| ends_with(l, ".m4a"@)
    ||| ends_with(l, ".flac"@)
    ||| ends_with(l, ".wav"@)
    ||| ends_with(l, ".ogg"@)
    ||| ends_with(l, ".opus"@)
    ||| ends_with(l, ".aac"@)
    ||| ends_with(l, ".wma"@)
}

/// Whether `path` names an audio file, judged by its extension in any case.
pub fn is_audio_path(path: &str) -> (b: bool)
    ensures
        b == is_audio_path_text(path@),
{
    let l = lowered(chars_of(path).as_slice());
    let s = l.as_slice();
    ends_in(s, ".mp3") || ends_in(s, ".m4a") || ends_in(s, ".flac") || ends_in(s, ".wav")
        || ends_in(s, ".ogg") || ends_in(s, ".opus") || ends_in(s, ".aac") || ends_in(s, ".wma")
}

/// `v` inserted into `sorted` after every entry at least as recent.
pub open spec fn insert_by_recency(sorted: Seq<FileEntry>, v: FileEntry) -> Seq<FileEntry>
    decreases sorted.len(),
{
    if sorted.len() == 0 {
        seq![v]
    } else if sorted[0].modified >= v.modified {
        seq![sorted[0]] + insert_by_recency(sorted.drop_first(), v)
    } else {
        seq![v] + sorted
    }
}

/// The entries ordered newest first, entries of equal time keeping their
/// order (a stable sort).
pub open spec fn newest_first(s: Seq<FileEntry>) -> Seq<FileEntry>
    decreases s.len(),
{
    if s.len() == 0 {
        Seq::empty()
    } else {
        insert_by_recency(newest_first(s.drop_last()), s.last())
    }
}

/// The entries whose names the list shows.
pub open spec fn shown_entries(s: Seq<FileEntry>) -> Seq<FileEntry>
    decreases s.len(),
{
    if s.len() == 0 {
        Seq::empty()
    } else if is_garbage_name(s.last().name@) {
        shown_entries(s.drop_last())
    } else {
        shown_entries(s.drop_last()).push(s.last())
    }
}

/// A list row made from a directory entry.
pub open spec fn file_from_entry(f: LocalFile, e: FileEntry) -> bool {
    &&& f.name == e.name
    &&& f.path == e.path
    &&& f.extension == e.extension
    &&& f.size@ == size_text(e.size_bytes as nat)
    &&& !f.is_garbage
    &&& f.modified == e.modified
}

/// Entries from the newest down.
pub open spec fn newest_down(s: Seq<FileEntry>) -> bool {
    forall|i: int, j: int| 0 <= i < j < s.len() ==> #[trigger] s[i].modified >= #[trigger] s[j].modified
}

proof fn lemma_insert_by_recency(sorted: Seq<FileEntry>, v: FileEntry)
    requires
        newest_down(sorted),
    ensures
        newest_down(insert_by_recency(sorted, v)),
        insert_by_recency(sorted, v).to_multiset() == sorted.to_multiset().insert(v),
    decreases sorted.len(),
{
    broadcast use vstd::seq_lib::group_to_multiset_ensures;
    broadcast use vstd::multiset::group_multiset_axioms;

    if sorted.len() == 0 {
        assert(seq![v] =~= Seq::<FileEntry>::empty().push(v));
        assert(sorted =~= Seq::<FileEntry>::empty());
    } else if sorted[0].modified >= v.modified {
        let s0 = sorted[0];
        let rest = sorted.drop_first();
        assert forall|i: int, j: int| 0 <= i < j < rest.len() implies #[trigger] rest[i].modified >= #[trigger] rest[j].modified by {
            assert(rest[i] == sorted[i + 1] && rest[j] == sorted[j + 1]);
        }
        lemma_insert_by_recency(rest, v);
        let r2 = insert_by_recency(rest, v);
        let r = seq![s0] + r2;
        assert(insert_by_recency(sorted, v) == r);
        vstd::seq_lib::lemma_multiset_commutative(seq![s0], r2);
        vstd::seq_lib::lemma_multiset_commutative(seq![s0], rest);
        assert(sorted =~= seq![s0] + rest);
        assert(r.to_multiset() =~= sorted.to_multiset().insert(v));
        assert forall|i: int, j: int| 0 <= i < j < r.len() implies #[trigger] r[i].modified >= #[trigger] r[j].modified by {
            if i == 0 {
                let x = r2[j - 1];
                assert(r[j] == x);
                assert(r2.contains(x));
                assert(r2.to_multiset().count(x) > 0);
                if x != v {
                    assert(rest.to_multiset().count(x) > 0);
                    assert(rest.contains(x));
                    let k = choose|k: int| 0 <= k < rest.len() && rest[k] == x;
                    assert(sorted[k + 1] == x);
                    assert(sorted[0].modified >= sorted[k + 1].modified);
                }
            } else {
                assert(r[i] == r2[i - 1] && r[j] == r2[j - 1]);
            }
        }
    } else {
        let r = seq![v] + sorted;
        assert(insert_by_recency(sorted, v) == r);
        assert(r =~= sorted.insert(0, v));
        assert forall|i: int, j: int| 0 <= i < j < r.len() implies #[trigger] r[i].modified >= #[trigger] r[j].modified by {
            if i == 0 {
                assert(r[j] == sorted[j - 1]);
                if j - 1 > 0 {
                    assert(sorted[0].modified >= sorted[j - 1].modified);
                }
            } else {
                assert(r[i] == sorted[i - 1] && r[j] == sorted[j - 1]);
            }
        }
    }
}

/// The file list holds every entry it was given, once each, newest first.
pub proof fn law_newest_first(s: Seq<FileEntry>)
    ensures
        newest_down(newest_first(s)),
        newest_first(s).to_multiset() == s.to_multiset(),
    decreases s.len(),
{
    broadcast use vstd::seq_lib::group_to_multiset_ensures;

    if s.len() == 0 {
        assert(newest_first(s) =~= s);
    } else {
        law_newest_first(s.drop_last());
        lemma_insert_by_recency(newest_first(s.drop_last()), s.last());
        assert(s =~= s.drop_last().push(s.last()));
    }
}

proof fn lemma_insert_at(sorted: Seq<FileEntry>, v: FileEntry, p: int)
    requires
        0 <= p <= sorted.len(),
        forall|j: int| 0 <= j < p ==> sorted[j].modified >= v.modified,
        p < sorted.len() ==> sorted[p].modified < v.modified,
    ensures
        insert_by_recency(sorted, v) == sorted.insert(p, v),
    decreases sorted.len(),
{
    if sorted.len() == 0 {
        assert(sorted.insert(p, v) =~= seq![v]);
    } else if p == 0 {
        assert(sorted.insert(0, v) =~= seq![v] + sorted);
    } else {
        let rest = sorted.drop_first();
        assert forall|j: int| 0 <= j < p - 1 implies rest[j].modified >= v.modified by {
            assert(rest[j] == sorted[j + 1]);
        }
        lemma_insert_at(rest, v, p - 1);
        assert(seq![sorted[0]] + rest.insert(p - 1, v) =~= sorted.insert(p, v));
    }
}

/// The entries ordered newest first (stable).
fn sort_newest_first(entries: Vec<FileEntry>) -> (r: Vec<FileEntry>)
    ensures
        r@ == newest_first(entries@),
{
    let ghost orig = entries@;
    let mut src = entries;
    let mut out: Vec<FileEntry> = Vec::new();
    let n = src.len();
    let mut i: usize = 0;
    assert(orig.take(0) =~= Seq::<FileEntry>::empty());
    while i < n
        invariant
            i <= n,
            n == orig.len(),
            src.len() == n - i,
            src@ == orig.skip(i as int),
            out@ == newest_first(orig.take(i as int)),
        decreases n - i,
    {
        let v = src.remove(0);
        assert(src@ =~= orig.skip(i + 1));
        assert(v == orig[i as int]);
        let mut p: usize = 0;
        while p < out.len() && out[p].modified >= v.modified
            invariant
                p <= out.len(),
                forall|j: int| 0 <= j < p ==> out@[j].modified >= v.modified,
            decreases out.len() - p,
        {
            p = p + 1;
        }
        proof {
            lemma_insert_at(out@, v, p as int);
            assert(orig.take(i + 1).drop_last() =~= orig.take(i as int));
        }
        out.insert(p, v);
        i = i + 1;
    }
    assert(orig.take(n as int) =~= orig);
    out
}

/// The entries whose names the list shows, in order.
fn keep_shown(entries: Vec<FileEntry>) -> (r: Vec<FileEntry>)
    ensures
        r@ == shown_entries(entries@),
{
    let ghost orig = entries@;
    let mut src = entries;
    let n = src.len();
    let mut out: Vec<FileEntry> = Vec::new();
    let mut i: usize = 0;
    while i < n
        invariant
            i <= n,
            n == orig.len(),
            src.len() == n - i,
            src@ == orig.skip(i as int),
            out@ == shown_entries(orig.take(i as int)),
        decreases n - i,
    {
        let v = src.remove(0);
        assert(src@ =~= orig.skip(i + 1));
        assert(v == orig[i as int]);
        assert(orig.take(i + 1).drop_last() =~= orig.take(i as int));
        if !is_garbage_file(v.name.as_str()) {
            out.push(v);
        }
        i = i + 1;
    }
    assert(orig.take(n as int) =~= orig);
    out
}

/// The rows of the local file list for the entries of the download
/// directory: partial downloads, temporary files and metadata left out,
/// newest first (entries of the same time in the order given), each with
/// its size written out.
pub fn local_files_from_entries(entries: Vec<FileEntry>) -> (r: Vec<LocalFile>)
    ensures
        r@.len() == newest_first(shown_entries(entries@)).len(),
        forall|i: int|
            0 <= i < r@.len() ==> file_from_entry(r@[i], newest_first(shown_entries(entries@))[i]),
{
    let shown = keep_shown(entries);
    let sorted = sort_newest_first(shown);
    let ghost target = sorted@;
    let mut src = sorted;
    let n = src.len();
    let mut out: Vec<LocalFile> = Vec::new();
    let mut i: usize = 0;
    while i < n
        invariant
            i <= n,
            n == target.len(),
            src.len() == n - i,
            src@ == target.skip(i as int),
            out@.len() == i,
            forall|j: int| 0 <= j < i ==> file_from_entry(out@[j], target[j]),
        decreases n - i,
    {
        let e = src.remove(0);
        assert(src@ =~= target.skip(i + 1));
        assert(e == target[i as int]);
        let size = format_size(e.size_bytes);
        out.push(
            LocalFile {
                name: e.name,
                path: e.path,
                size,
                extension: e.extension,
                is_garbage: false,
                modified: e.modified,
            },
        );
        i = i + 1;
    }
    out
}

/// 2^53: from here on not every whole number is an IEEE double.
pub open spec fn two53() -> nat {
    9007199254740992
}

/// The power of two that is the spacing of doubles near `n`, searched from `u`.
pub open spec fn spacing_from(n: nat, u: nat) -> nat
    decreases n - u,
{
    if u == 0 || n < two53() * u {
        u
    } else {
        spacing_from(n, 2 * u)
    }
}

/// `q` rounded from the quotient with remainder `r` of division by `u`:
/// up past the half, and at the half to an even `q`.
pub open spec fn round_half_even(q: nat, r: nat, u: nat) -> nat {
    if 2 * r > u || (2 * r == u && q % 2 == 1) {
        q + 1
    } else {
        q
    }
}

/// The value of `n` as an IEEE double (round to nearest, ties to even).
pub open spec fn as_double(n: nat) -> nat {
    let u = spacing_from(n, 1);
    round_half_even(n / u, n % u, u) * u
}

/// `num / den` written with one decimal, rounded to nearest with ties to even.
pub open spec fn one_decimal(num: nat, den: nat) -> Seq<char> {
    let t = round_half_even((num * 10) / den, (num * 10) % den, den);
    decimal(t / 10) + seq!['.'] + seq![digit(t % 10)]
}

/// A byte count as the file list writes it: megabytes with one decimal,
/// or gigabytes from 1024 MB on, computed on the count as a double.
pub open spec fn size_text(bytes: nat) -> Seq<char> {
    let v = as_double(bytes);
    if v >= 1073741824 {
        one_decimal(v, 1073741824) + " GB"@
    } else {
        one_decimal(v, 1048576) + " MB"@
    }
}

/// Appends `num / den` with one decimal to `out`.
fn push_one_decimal(out: &mut String, num: u128, den: u128)
    requires
        16 <= den <= 0x1_0000_0000_0000_0000,
        num <= 0x1_0000_0000_0000_0000,
    ensures
        final(out)@ == old(out)@ + one_decimal(num as nat, den as nat),
{
    let q = (num * 10) / den;
    let r = (num * 10) % den;
    let t = if 2 * r > den || (2 * r == den && q % 2 == 1) {
        q + 1
    } else {
        q
    };
    assert(q == (num as nat * 10) / (den as nat));
    assert(r == (num as nat * 10) % (den as nat));
    assert(t == round_half_even((num as nat * 10) / (den as nat), (num as nat * 10) % (den as nat), den as nat));
    assert(q <= num * 10) by (nonlinear_arith)
        requires
            q == (num as nat * 10) / (den as nat),
            den > 0,
    {}
    assert(q <= num * 10 / 16) by (nonlinear_arith)
        requires
            q == (num as nat * 10) / (den as nat),
            den >= 16,
    {}
    let whole = t / 10;
    assert(whole <= 0xFFFF_FFFF_FFFF_FFFF);
    let ghost before = out@;
    push_decimal(out, whole as u64);
    push_char(out, '.');
    push_char(out, digit_char((t % 10) as u64));
    assert(out@ =~= before + one_decimal(num as nat, den as nat));
}

/// `n` as an IEEE double, exactly.
fn double_of(n: u64) -> (v: u128)
    ensures
        v == as_double(n as nat),
        v <= 0x1_0000_0000_0000_0000,
{
    let mut u: u128 = 1;
    let ghost orig_u = 1nat;
    while (n as u128) >= 9007199254740992u128 * u
        invariant
            1 <= u <= 0x1_0000_0000_0000_0000,
            spacing_from(n as nat, u as nat) == spacing_from(n as nat, 1),
            u <= n + 1,
            u == 1 || 4503599627370496 * u <= n,
            u == 1 || u == 2 || u == 4 || u == 8 || u == 16 || u == 32 || u == 64 || u == 128
                || u == 256 || u == 512 || u == 1024 || u == 2048 || u == 4096,
        decreases n - u,
    {
        u = 2 * u;
    }
    assert(u == spacing_from(n as nat, u as nat));
    assert(u == spacing_from(n as nat, 1));
    let q = (n as u128) / u;
    let r = (n as u128) % u;
    let qr = if 2 * r > u || (2 * r == u && q % 2 == 1) {
        q + 1
    } else {
        q
    };
    assert(q * u <= n) by (nonlinear_arith)
        requires
            q == (n as nat) / (u as nat),
            u >= 1,
    {}
    assert(q < 9007199254740992) by (nonlinear_arith)
        requires
            q == (n as nat) / (u as nat),
            u >= 1,
            n < 9007199254740992 * u,
    {}
    assert(u <= 2048);
    assert(qr <= 9007199254740992);
    assert(qr * u <= 0x1_0000_0000_0000_0000) by (nonlinear_arith)
        requires
            qr <= 9007199254740992,
            u <= 2048,
    {}
    qr * u
}

/// A byte count as the file list writes it (`12.5 MB`, `1.2 GB`).
pub fn format_size(bytes: u64) -> (s: String)
    ensures
        s@ == size_text(bytes as nat),
{
    let v = double_of(bytes);
    let mut s = String::new();
    if v >= 1073741824 {
        push_one_decimal(&mut s, v, 1073741824);
        s.append(" GB");
    } else {
        push_one_decimal(&mut s, v, 1048576);
        s.append(" MB");
    }
    assert(s@ =~= size_text(bytes as nat));
    s
}


/// A download whose `yt-dlp` metadata file was found in the download
/// directory.
pub struct FoundTask {
    pub video: Video,
    pub format_id: String,
    pub info_json_path: String,
}

/// The task a metadata file describes: its id, title and address (the page
/// address, else the plain one) and its format (`best` when it names none);
/// none for a file that is not JSON or lacks the id or the address.
pub open spec fn found_task_of(path: Seq<char>, content: Seq<char>) -> Option<(VideoView, Seq<char>)> {
    let id = or_empty(json_text_of(content, "id"@));
    let title = or_empty(json_text_of(content, "title"@));
    let url = or_empty(first_of(json_text_of(content, "webpage_url"@), json_text_of(content, "url"@)));
    if !json_parses(content) || id.len() == 0 || url.len() == 0 {
        None
    } else {
        Some((
            VideoView { id, title, url, ..Video::empty_view() },
            or_text(json_text_of(content, "format_id"@), "best"@),
        ))
    }
}

/// Reads a download's metadata file found at `path`.
pub fn found_task(path: &str, content: &str) -> (r: Option<FoundTask>)
    ensures
        match r {
            Some(t) => found_task_of(path@, content@) == Some((t.video@, t.format_id@))
                && t.info_json_path@ == path@,
            None => found_task_of(path@, content@) is None,
        },
{
    if !json_is_document(content) {
        return None;
    }
    let id = match json_str(content, "id") {
        Some(s) => s,
        None => String::new(),
    };
    let title = match json_str(content, "title") {
        Some(s) => s,
        None => String::new(),
    };
    let url = match json_str(content, "webpage_url") {
        Some(s) => s,
        None => match json_str(content, "url") {
            Some(s) => s,
            None => String::new(),
        },
    };
    let format_id = match json_str(content, "format_id") {
        Some(s) => s,
        None => String::from_str("best"),
    };
    if id.as_str().is_empty() || url.as_str().is_empty() {
        return None;
    }
    let mut video = Video::empty();
    video.id = id;
    video.title = title;
    video.url = url;
    Some(FoundTask { video, format_id, info_json_path: String::from_str(path) })
}

/// Whether a file of the download directory is a download's metadata file
/// (its name ends with `.info.json`).
pub fn is_metadata_file(name: &str) -> (b: bool)
    ensures
        b == ends_with(name@, ".info.json"@),
{
    crate::text::str_ends_with(name, ".info.json")
}

/// The path of a metadata file without its `.info.json` ending.
pub open spec fn base_of(path: Seq<char>) -> Seq<char> {
    if ends_with(path, ".info.json"@) {
        path.take(path.len() - 10)
    } else {
        path
    }
}

/// The extensions a partial download is looked for with.
pub open spec fn part_extensions() -> Seq<Seq<char>> {
    seq!["mp4"@, "mkv"@, "webm"@, "mp3"@, "m4a"@, "opus"@]
}

/// The partial files a metadata file's download may have left, in the
/// order they are looked for: `base.ext.part` then `base.part`, for each
/// extension in turn.
pub open spec fn base_part_paths(base: Seq<char>) -> Seq<Seq<char>> {
    Seq::new(12, |k: int| if k % 2 == 0 {
        base + "."@ + part_extensions()[k / 2] + ".part"@
    } else {
        base + ".part"@
    })
}

/// The partial files whose presence marks a found download as unfinished:
/// the file the metadata names, with `.part`, or else those of the base path.
pub open spec fn part_paths(path: Seq<char>, filename: Option<Seq<char>>) -> Seq<Seq<char>> {
    match filename {
        Some(f) => seq![f + ".part"@],
        None => base_part_paths(base_of(path)),
    }
}

/// `path` without its `.info.json` ending.
fn base_path(path: &str) -> (r: String)
    ensures
        r@ == base_of(path@),
{
    let c = chars_of(path);
    if ends_in(c.as_slice(), ".info.json") {
        proof {
            reveal_strlit(".info.json");
        }
        let mut v: Vec<char> = Vec::new();
        let n = c.len() - 10;
        let mut k: usize = 0;
        while k < n
            invariant
                k <= n,
                n + 10 == c.len(),
                v@ == c@.take(k as int),
            decreases n - k,
        {
            v.push(c[k]);
            k = k + 1;
            assert(v@ =~= c@.take(k as int));
        }
        crate::text::string_of(v.as_slice())
    } else {
        String::from_str(path)
    }
}

/// The partial files of the base path `base`, in the order they are looked for.
fn base_parts(base: &str) -> (r: Vec<String>)
    ensures
        crate::yt::texts(r@) == base_part_paths(base@),
{
    let exts: [&str; 6] = ["mp4", "mkv", "webm", "mp3", "m4a", "opus"];
    let mut r: Vec<String> = Vec::new();
    let mut i: usize = 0;
    while i < 6
        invariant
            i <= 6,
            exts@.map_values(|e: &str| e@) == part_extensions(),
            crate::yt::texts(r@) == base_part_paths(base@).take(2 * i),
        decreases 6 - i,
    {
        assert(exts@.map_values(|e: &str| e@)[i as int] == exts@[i as int]@);
        let mut a = String::from_str(base);
        a.append(".");
        a.append(exts[i]);
        a.append(".part");
        let mut b = String::from_str(base);
        b.append(".part");
        let ghost before = crate::yt::texts(r@);
        r.push(a);
        r.push(b);
        assert(crate::yt::texts(r@) =~= before.push(a@).push(b@));
        i = i + 1;
        assert(base_part_paths(base@).take(2 * i) =~= base_part_paths(base@).take(2 * (i - 1)).push(
            base@ + "."@ + part_extensions()[i - 1] + ".part"@,
        ).push(base@ + ".part"@));
    }
    assert(base_part_paths(base@).take(12) =~= base_part_paths(base@));
    r
}

/// The partial files to look for beside the metadata file at `path`, where
/// `filename` is the `_filename` it names, if any.
pub fn part_paths_of(path: &str, filename: Option<&str>) -> (r: Vec<String>)
    ensures
        crate::yt::texts(r@) == part_paths(
            path@,
            match filename {
                Some(f) => Some(f@),
                None => None,
            },
        ),
{
    match filename {
        Some(f) => {
            let mut a = String::from_str(f);
            a.append(".part");
            let mut r: Vec<String> = Vec::new();
            r.push(a);
            assert(crate::yt::texts(r@) =~= seq![f@ + ".part"@]);
            r
        },
        None => {
            let b = base_path(path);
            base_parts(b.as_str())
        },
    }
}

/// The `_filename` a metadata file names, if any.
pub fn named_filename(content: &str) -> (r: Option<String>)
    ensures
        crate::text::opt_text(r) == json_text_of(content@, "_filename"@),
{
    json_str(content, "_filename")
}

/// The state of a found download: canceled (resumable) when one of its
/// partial files exists, finished otherwise.
pub fn found_status(part_exists: &[bool]) -> (s: DownloadStatus)
    ensures
        s == (if exists|k: int| 0 <= k < part_exists@.len() && part_exists@[k] {
            DownloadStatus::Canceled
        } else {
            DownloadStatus::Finished
        }),
{
    let mut k: usize = 0;
    while k < part_exists.len()
        invariant
            k <= part_exists.len(),
            forall|j: int| 0 <= j < k ==> !part_exists@[j],
        decreases part_exists.len() - k,
    {
        if part_exists[k] {
            return DownloadStatus::Canceled;
        }
        k = k + 1;
    }
    DownloadStatus::Finished
}

/// The first of the looked-for files that exists: the one a task's removal
/// deletes beside its metadata.
pub fn first_existing(exists: &[bool]) -> (r: Option<usize>)
    ensures
        match r {
            Some(k) => k < exists@.len() && exists@[k as int] && forall|j: int| 0 <= j < k ==> !exists@[j],
            None => forall|j: int| 0 <= j < exists@.len() ==> !exists@[j],
        },
{
    let mut k: usize = 0;
    while k < exists.len()
        invariant
            k <= exists.len(),
            forall|j: int| 0 <= j < k ==> !exists@[j],
        decreases exists.len() - k,
    {
        if exists[k] {
            return Some(k);
        }
        k = k + 1;
    }
    None
}

/// The partial files a task's removal looks for beside its metadata file
/// at `info_json`, in order.
pub fn removal_candidates(info_json: &str) -> (r: Vec<String>)
    ensures
        crate::yt::texts(r@) == base_part_paths(base_of(info_json@)),
{
    let b = base_path(info_json);
    base_parts(b.as_str())
}
} // verus!
