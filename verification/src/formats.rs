//! The streams a video offers, read from `yt-dlp`'s JSON and ordered for
//! the format picker.
use vstd::prelude::*;
use crate::text::{contains, occurs_at, opt_text, str_contains, str_eq, parse_u32, parse_u32_text, chars_of, string_of};
use crate::model::VideoFormat;
use crate::yt::{or_empty, or_text, first_of};
use crate::json::{
    json_parses, json_items_of, json_item_text_of, json_item_count_of, json_item_whole_of,
    json_is_document, json_items, json_item_str, json_item_u64, json_item_whole,
};

verus! {

broadcast use vstd::string::group_string_axioms;

/// A format, texts as character sequences.
pub ghost struct FormatView {
    pub format_id: Seq<char>,
    pub ext: Seq<char>,
    pub resolution: Seq<char>,
    pub note: Seq<char>,
    pub filesize: Option<u64>,
    pub has_audio: bool,
}

impl View for VideoFormat {
    type V = FormatView;

    open spec fn view(&self) -> FormatView {
        FormatView {
            format_id: self.format_id@,
            ext: self.ext@,
            resolution: self.resolution@,
            note: self.note@,
            filesize: self.filesize,
            has_audio: self.has_audio,
        }
    }
}

/// The string member `field` of format `i` of the document.
pub open spec fn format_text(doc: Seq<char>, i: nat, field: Seq<char>) -> Option<Seq<char>> {
    json_item_text_of(doc, "formats"@, i, field)
}

/// Whether format `i` is a storyboard or an image page, which the list leaves out.
pub open spec fn format_skipped(doc: Seq<char>, i: nat) -> bool {
    or_empty(format_text(doc, i, "ext"@)) == "mhtml"@ || contains(
        or_empty(format_text(doc, i, "format_id"@)),
        "storyboard"@,
    )
}

/// The size of format `i`: the exact size, else the approximate one, each
/// first as a whole number and then as a number converted to whole, else
/// the estimate from its bit rate and the video's length.
pub open spec fn format_size(doc: Seq<char>, i: nat, estimate: Option<u64>) -> Option<u64> {
    first_of(
        first_of(
            first_of(
                first_of(
                    json_item_count_of(doc, "formats"@, i, "filesize"@),
                    json_item_count_of(doc, "formats"@, i, "filesize_approx"@),
                ),
                json_item_whole_of(doc, "formats"@, i, "filesize"@),
            ),
            json_item_whole_of(doc, "formats"@, i, "filesize_approx"@),
        ),
        estimate,
    )
}

/// Format `i` of the document: `audio only` when it has sound but no
/// picture, else its resolution or note (`unknown` without either).
pub open spec fn format_at(doc: Seq<char>, i: nat, estimate: Option<u64>) -> FormatView {
    let vcodec = or_text(format_text(doc, i, "vcodec"@), "none"@);
    let acodec = or_text(format_text(doc, i, "acodec"@), "none"@);
    FormatView {
        format_id: or_empty(format_text(doc, i, "format_id"@)),
        ext: or_empty(format_text(doc, i, "ext"@)),
        resolution: if vcodec == "none"@ && acodec != "none"@ {
            "audio only"@
        } else {
            or_text(first_of(format_text(doc, i, "resolution"@), format_text(doc, i, "format_note"@)), "unknown"@)
        },
        note: or_empty(format_text(doc, i, "format_note"@)),
        filesize: format_size(doc, i, estimate),
        has_audio: acodec != "none"@,
    }
}

/// A format's resolution is the one its JSON states when it has a
/// picture or no sound: the stated `resolution`, else its `format_note`,
/// else `unknown`; a format with sound and no picture is `audio only`. It
/// has sound exactly when its `acodec` is given and is not `none`, and it
/// keeps its id, extension and note as stated.
pub proof fn law_format_resolution(doc: Seq<char>, i: nat, estimate: Option<u64>)
    ensures
        ({
            let f = format_at(doc, i, estimate);
            let vcodec = json_item_text_of(doc, "formats"@, i, "vcodec"@);
            let acodec = json_item_text_of(doc, "formats"@, i, "acodec"@);
            let sound = acodec matches Some(a) && a != "none"@;
            let picture = vcodec matches Some(v) && v != "none"@;
            let res = json_item_text_of(doc, "formats"@, i, "resolution"@);
            let note = json_item_text_of(doc, "formats"@, i, "format_note"@);
            &&& f.has_audio == sound
            &&& (sound && !picture ==> f.resolution == "audio only"@)
            &&& (picture || !sound) ==> (res matches Some(r) ==> f.resolution == r)
            &&& (picture || !sound) && res is None ==> (note matches Some(n) ==> f.resolution == n)
            &&& (picture || !sound) && res is None && note is None ==> f.resolution == "unknown"@
            &&& (note matches Some(n) ==> f.note == n)
            &&& (json_item_text_of(doc, "formats"@, i, "format_id"@) matches Some(x) ==> f.format_id == x)
            &&& (json_item_text_of(doc, "formats"@, i, "ext"@) matches Some(x) ==> f.ext == x)
        }),
{
}

/// The estimate given for format `i`, if any.
pub open spec fn estimate_at(estimates: Seq<Option<u64>>, i: int) -> Option<u64> {
    if 0 <= i < estimates.len() {
        estimates[i]
    } else {
        None
    }
}

/// The formats of the first `n` entries of the document's list, in order,
/// storyboards and image pages left out.
pub open spec fn formats_upto(doc: Seq<char>, estimates: Seq<Option<u64>>, n: nat) -> Seq<FormatView>
    decreases n,
{
    if n == 0 {
        Seq::empty()
    } else {
        let i = (n - 1) as nat;
        let before = formats_upto(doc, estimates, i);
        if format_skipped(doc, i) {
            before
        } else {
            before.push(format_at(doc, i, estimate_at(estimates, i as int)))
        }
    }
}

/// Every format of the document's first `n` that is not a storyboard (its
/// id holds `storyboard`) or an image page (extension `mhtml`) is in the
/// list, as `format_at` reads it with its estimate; the list has no more
/// entries than formats.
pub proof fn law_formats_listed(doc: Seq<char>, estimates: Seq<Option<u64>>, n: nat)
    ensures
        formats_upto(doc, estimates, n).len() <= n,
        forall|i: nat|
            #![trigger format_at(doc, i, estimate_at(estimates, i as int))]
            i < n && json_item_text_of(doc, "formats"@, i, "ext"@) != Some("mhtml"@) && !(json_item_text_of(
                doc,
                "formats"@,
                i,
                "format_id"@,
            ) matches Some(x) && contains(x, "storyboard"@)) ==> formats_upto(doc, estimates, n).contains(
                format_at(doc, i, estimate_at(estimates, i as int)),
            ),
    decreases n,
{
    reveal_strlit("storyboard");
    reveal_strlit("mhtml");
    if n > 0 {
        let m = (n - 1) as nat;
        law_formats_listed(doc, estimates, m);
        let before = formats_upto(doc, estimates, m);
        let now = formats_upto(doc, estimates, n);
        assert forall|i: nat|
            i < n && json_item_text_of(doc, "formats"@, i, "ext"@) != Some("mhtml"@) && !(json_item_text_of(
                doc,
                "formats"@,
                i,
                "format_id"@,
            ) matches Some(x) && contains(x, "storyboard"@)) implies now.contains(
                format_at(doc, i, estimate_at(estimates, i as int)),
            ) by {
            if i < m {
                let f = format_at(doc, i, estimate_at(estimates, i as int));
                assert(before.contains(f));
                let j = choose|j: int| 0 <= j < before.len() && before[j] == f;
                if !format_skipped(doc, m) {
                    assert(now[j] == f);
                }
            } else {
                if contains(or_empty(json_item_text_of(doc, "formats"@, i, "format_id"@)), "storyboard"@) {
                    let k = choose|k: int| occurs_at(
                        or_empty(json_item_text_of(doc, "formats"@, i, "format_id"@)),
                        "storyboard"@,
                        k,
                    );
                    assert(json_item_text_of(doc, "formats"@, i, "format_id"@) is Some);
                }
                if json_item_text_of(doc, "formats"@, i, "ext"@) is None {
                    assert("mhtml"@.len() == 5);
                    assert(or_empty(json_item_text_of(doc, "formats"@, i, "ext"@)).len() == 0);
                }
                assert(!format_skipped(doc, i));
                assert(now[now.len() - 1] == format_at(doc, i, estimate_at(estimates, i as int)));
            }
        }
    }
}

/// The views of a list of formats.
pub open spec fn format_views(v: Seq<VideoFormat>) -> Seq<FormatView> {
    v.map_values(|f: VideoFormat| f@)
}

/// A string member of format `i`, or `d`.
fn item_text_or(doc: &str, i: usize, field: &str, d: &str) -> (r: String)
    ensures
        r@ == or_text(format_text(doc@, i as nat, field@), d@),
{
    match json_item_str(doc, "formats", i, field) {
        Some(s) => s,
        None => String::from_str(d),
    }
}

/// A string member of format `i`, or the empty string.
fn item_text(doc: &str, i: usize, field: &str) -> (r: String)
    ensures
        r@ == or_empty(format_text(doc@, i as nat, field@)),
{
    match json_item_str(doc, "formats", i, field) {
        Some(s) => s,
        None => String::new(),
    }
}

/// Format `i` of the document.
fn read_format(doc: &str, i: usize, estimate: Option<u64>) -> (f: VideoFormat)
    ensures
        f@ == format_at(doc@, i as nat, estimate),
{
    let format_id = item_text(doc, i, "format_id");
    let ext = item_text(doc, i, "ext");
    let vcodec = item_text_or(doc, i, "vcodec", "none");
    let acodec = item_text_or(doc, i, "acodec", "none");
    let audio_only = str_eq(vcodec.as_str(), "none") && !str_eq(acodec.as_str(), "none");
    let resolution = if audio_only {
        String::from_str("audio only")
    } else {
        match json_item_str(doc, "formats", i, "resolution") {
            Some(r) => r,
            None => item_text_or(doc, i, "format_note", "unknown"),
        }
    };
    let note = item_text(doc, i, "format_note");
    let mut size = json_item_u64(doc, "formats", i, "filesize");
    if size.is_none() {
        size = json_item_u64(doc, "formats", i, "filesize_approx");
    }
    if size.is_none() {
        size = json_item_whole(doc, "formats", i, "filesize");
    }
    if size.is_none() {
        size = json_item_whole(doc, "formats", i, "filesize_approx");
    }
    if size.is_none() {
        size = estimate;
    }
    VideoFormat {
        format_id,
        ext,
        resolution,
        note,
        filesize: size,
        has_audio: !str_eq(acodec.as_str(), "none"),
    }
}

/// The formats listed in `yt-dlp`'s JSON for one video, in the document's
/// order, storyboards and image pages left out; `estimates[i]`, where given,
/// is the size estimated for format `i` when the document states none.
/// A document that is not JSON is refused with `Failed to parse yt-dlp JSON`.
pub fn formats_from_json(doc: &str, estimates: &[Option<u64>]) -> (r: Result<Vec<VideoFormat>, String>)
    ensures
        match r {
            Ok(v) => json_parses(doc@) && format_views(v@) == formats_upto(
                doc@,
                estimates@,
                json_items_of(doc@, "formats"@),
            ),
            Err(e) => !json_parses(doc@) && e@ == "Failed to parse yt-dlp JSON"@,
        },
{
    if !json_is_document(doc) {
        return Err(String::from_str("Failed to parse yt-dlp JSON"));
    }
    let n = json_items(doc, "formats");
    let mut out: Vec<VideoFormat> = Vec::new();
    let mut i: usize = 0;
    while i < n
        invariant
            i <= n,
            n as nat == json_items_of(doc@, "formats"@),
            format_views(out@) == formats_upto(doc@, estimates@, i as nat),
        decreases n - i,
    {
        let ext = item_text(doc, i, "ext");
        let id = item_text(doc, i, "format_id");
        let skip = str_eq(ext.as_str(), "mhtml") || str_contains(id.as_str(), "storyboard");
        if !skip {
            let est = if i < estimates.len() {
                estimates[i]
            } else {
                None
            };
            let f = read_format(doc, i, est);
            let ghost before = out@;
            out.push(f);
            assert(format_views(out@) =~= format_views(before).push(f@));
        }
        i = i + 1;
    }
    Ok(out)
}

/// The text after the last `c` in `s`, or all of `s` when it has none
/// (the last piece of `split(c)`).
pub open spec fn after_last(s: Seq<char>, c: char) -> Seq<char>
    decreases s.len(),
{
    if s.len() == 0 {
        s
    } else if s.last() == c {
        Seq::empty()
    } else {
        after_last(s.drop_last(), c).push(s.last())
    }
}

/// The height a resolution such as `1920x1080` names: the number after
/// the last `x`, or 0 when that is not a number.
pub open spec fn height_of(res: Seq<char>) -> nat {
    match parse_u32_text(after_last(res, 'x')) {
        Some(h) => h as nat,
        None => 0,
    }
}

/// Whether a format carries sound only.
pub open spec fn is_audio_format(f: FormatView) -> bool {
    f.resolution == "audio only"@ || contains(f.note, "audio only"@)
}

/// A size ordered as `Option` orders: none below every size.
pub open spec fn size_rank(s: Option<u64>) -> nat {
    match s {
        Some(n) => (n + 1) as nat,
        None => 0,
    }
}

/// Whether `a` may stand before `b` in the picker: pictures before sound,
/// taller pictures first, larger sound files first.
pub open spec fn format_le(a: FormatView, b: FormatView) -> bool {
    if is_audio_format(a) != is_audio_format(b) {
        !is_audio_format(a)
    } else if !is_audio_format(a) {
        height_of(a.resolution) >= height_of(b.resolution)
    } else {
        size_rank(a.filesize) >= size_rank(b.filesize)
    }
}

/// `v` placed into the ordered `sorted` after every format that may stand
/// before it.
pub open spec fn insert_format(sorted: Seq<FormatView>, v: FormatView) -> Seq<FormatView>
    decreases sorted.len(),
{
    if sorted.len() == 0 {
        seq![v]
    } else if format_le(sorted[0], v) {
        seq![sorted[0]] + insert_format(sorted.drop_first(), v)
    } else {
        seq![v] + sorted
    }
}

/// The formats in picker order; formats that rank the same keep their
/// order (a stable sort).
pub open spec fn picker_order(s: Seq<FormatView>) -> Seq<FormatView>
    decreases s.len(),
{
    if s.len() == 0 {
        Seq::empty()
    } else {
        insert_format(picker_order(s.drop_last()), s.last())
    }
}

proof fn lemma_insert_format_at(sorted: Seq<FormatView>, v: FormatView, p: int)
    requires
        0 <= p <= sorted.len(),
        forall|j: int| 0 <= j < p ==> format_le(#[trigger] sorted[j], v),
        p < sorted.len() ==> !format_le(sorted[p], v),
    ensures
        insert_format(sorted, v) == sorted.insert(p, v),
    decreases sorted.len(),
{
    if sorted.len() == 0 {
        assert(sorted.insert(p, v) =~= seq![v]);
    } else if p == 0 {
        assert(sorted.insert(0, v) =~= seq![v] + sorted);
    } else {
        let rest = sorted.drop_first();
        assert forall|j: int| 0 <= j < p - 1 implies format_le(#[trigger] rest[j], v) by {
            assert(rest[j] == sorted[j + 1]);
        }
        lemma_insert_format_at(rest, v, p - 1);
        assert(seq![sorted[0]] + rest.insert(p - 1, v) =~= sorted.insert(p, v));
    }
}

/// Formats in picker order: each may stand before every later one.
pub open spec fn in_picker_order(s: Seq<FormatView>) -> bool {
    forall|i: int, j: int| 0 <= i < j < s.len() ==> format_le(#[trigger] s[i], #[trigger] s[j])
}

proof fn lemma_format_le_total(a: FormatView, b: FormatView)
    ensures
        format_le(a, b) || format_le(b, a),
{
}

proof fn lemma_format_le_trans(a: FormatView, b: FormatView, c: FormatView)
    requires
        format_le(a, b),
        format_le(b, c),
    ensures
        format_le(a, c),
{
}

proof fn lemma_insert_format(sorted: Seq<FormatView>, v: FormatView)
    requires
        in_picker_order(sorted),
    ensures
        in_picker_order(insert_format(sorted, v)),
        insert_format(sorted, v).to_multiset() == sorted.to_multiset().insert(v),
    decreases sorted.len(),
{
    broadcast use vstd::seq_lib::group_to_multiset_ensures;
    broadcast use vstd::multiset::group_multiset_axioms;

    if sorted.len() == 0 {
        assert(seq![v] =~= Seq::<FormatView>::empty().push(v));
        assert(sorted =~= Seq::<FormatView>::empty());
    } else if format_le(sorted[0], v) {
        let s0 = sorted[0];
        let rest = sorted.drop_first();
        assert forall|i: int, j: int| 0 <= i < j < rest.len() implies format_le(#[trigger] rest[i], #[trigger] rest[j]) by {
            assert(rest[i] == sorted[i + 1] && rest[j] == sorted[j + 1]);
        }
        lemma_insert_format(rest, v);
        let r2 = insert_format(rest, v);
        let r = seq![s0] + r2;
        assert(insert_format(sorted, v) == r);
        vstd::seq_lib::lemma_multiset_commutative(seq![s0], r2);
        vstd::seq_lib::lemma_multiset_commutative(seq![s0], rest);
        assert(sorted =~= seq![s0] + rest);
        assert(r.to_multiset() =~= sorted.to_multiset().insert(v));
        assert forall|i: int, j: int| 0 <= i < j < r.len() implies format_le(#[trigger] r[i], #[trigger] r[j]) by {
            if i == 0 {
                let x = r2[j - 1];
                assert(r[j] == x);
                assert(r2.contains(x));
                assert(r2.to_multiset().count(x) > 0);
                if x != v {
                    assert(rest.to_multiset().count(x) > 0);
                    assert(rest.contains(x));
                    let k = choose|k: int| 0 <= k < rest.len() && rest[k] == x;
                    assert(sorted[k + 1] == x);
                    assert(format_le(sorted[0], sorted[k + 1]));
                }
            } else {
                assert(r[i] == r2[i - 1] && r[j] == r2[j - 1]);
            }
        }
    } else {
        let r = seq![v] + sorted;
        assert(insert_format(sorted, v) == r);
        assert(r =~= sorted.insert(0, v));
        lemma_format_le_total(sorted[0], v);
        assert forall|i: int, j: int| 0 <= i < j < r.len() implies format_le(#[trigger] r[i], #[trigger] r[j]) by {
            if i == 0 {
                assert(r[j] == sorted[j - 1]);
                if j - 1 > 0 {
                    assert(format_le(sorted[0], sorted[j - 1]));
                    lemma_format_le_trans(v, sorted[0], sorted[j - 1]);
                }
            } else {
                assert(r[i] == sorted[i - 1] && r[j] == sorted[j - 1]);
            }
        }
    }
}

/// The picker lists every format it was given, once each, and in picker
/// order: every picture format before every sound-only one, pictures from
/// the tallest down, sound from the largest file down.
pub proof fn law_picker_order(s: Seq<FormatView>)
    ensures
        in_picker_order(picker_order(s)),
        picker_order(s).to_multiset() == s.to_multiset(),
    decreases s.len(),
{
    broadcast use vstd::seq_lib::group_to_multiset_ensures;

    if s.len() == 0 {
        assert(picker_order(s) =~= s);
    } else {
        law_picker_order(s.drop_last());
        lemma_insert_format(picker_order(s.drop_last()), s.last());
        assert(s =~= s.drop_last().push(s.last()));
    }
}

/// The text after the last `x` of `s`.
#[verifier::spinoff_prover]
fn after_last_x(s: &str) -> (r: String)
    ensures
        r@ == after_last(s@, 'x'),
{
    let c = chars_of(s);
    let mut k: usize = c.len();
    assert(c@.take(k as int) =~= c@);
    assert(c@.skip(k as int) =~= Seq::<char>::empty());
    assert(after_last(c@, 'x') + Seq::<char>::empty() =~= after_last(c@, 'x'));
    while k > 0 && c[k - 1] != 'x'
        invariant
            k <= c.len(),
            c@ == s@,
            after_last(s@, 'x') == after_last(c@.take(k as int), 'x') + c@.skip(k as int),
        decreases k,
    {
        assert(c@.take(k as int).drop_last() =~= c@.take(k - 1));
        assert(c@.skip(k - 1) =~= seq![c@[k - 1]] + c@.skip(k as int));
        assert(after_last(c@.take(k - 1), 'x').push(c@[k - 1]) + c@.skip(k as int) =~= after_last(
            c@.take(k - 1),
            'x',
        ) + c@.skip(k - 1));
        k = k - 1;
    }
    let mut tail: Vec<char> = Vec::new();
    let mut j: usize = k;
    while j < c.len()
        invariant
            k <= j <= c.len(),
            tail@ == c@.subrange(k as int, j as int),
        decreases c.len() - j,
    {
        tail.push(c[j]);
        j = j + 1;
        assert(tail@ =~= c@.subrange(k as int, j as int));
    }
    proof {
        if k > 0 {
            assert(c@.take(k as int).last() == 'x');
        } else {
            assert(c@.take(0) =~= Seq::<char>::empty());
        }
    }
    assert(tail@ =~= c@.skip(k as int));
    assert(after_last(s@, 'x') =~= c@.skip(k as int));
    string_of(tail.as_slice())
}

/// The height a resolution names.
fn height(res: &str) -> (h: u32)
    ensures
        h as nat == height_of(res@),
{
    let t = after_last_x(res);
    match parse_u32(t.as_str()) {
        Some(h) => h,
        None => 0,
    }
}

/// Whether a format carries sound only.
fn audio_format(f: &VideoFormat) -> (b: bool)
    ensures
        b == is_audio_format(f@),
{
    str_eq(f.resolution.as_str(), "audio only") || str_contains(f.note.as_str(), "audio only")
}

/// Whether `a` may stand before `b` in the picker.
fn format_before(a: &VideoFormat, b: &VideoFormat) -> (r: bool)
    ensures
        r == format_le(a@, b@),
{
    let aa = audio_format(a);
    let ba = audio_format(b);
    if aa != ba {
        !aa
    } else if !aa {
        height(a.resolution.as_str()) >= height(b.resolution.as_str())
    } else {
        match (a.filesize, b.filesize) {
            (Some(x), Some(y)) => x >= y,
            (Some(_), None) => true,
            (None, Some(_)) => false,
            (None, None) => true,
        }
    }
}

/// The formats in picker order: every picture format before every
/// sound-only one, pictures from the tallest down, sound from the largest
/// file down (a missing size last), formats that rank the same in the order
/// given.
pub fn sort_formats(formats: Vec<VideoFormat>) -> (r: Vec<VideoFormat>)
    ensures
        format_views(r@) == picker_order(format_views(formats@)),
{
    let ghost orig = format_views(formats@);
    let mut src = formats;
    let mut out: Vec<VideoFormat> = Vec::new();
    let n = src.len();
    let mut i: usize = 0;
    assert(orig.take(0) =~= Seq::<FormatView>::empty());
    while i < n
        invariant
            i <= n,
            n == orig.len(),
            src.len() == n - i,
            format_views(src@) == orig.skip(i as int),
            format_views(out@) == picker_order(orig.take(i as int)),
        decreases n - i,
    {
        let ghost before_src = src@;
        let v = src.remove(0);
        assert(format_views(src@) =~= orig.skip(i + 1)) by {
            assert(src@ =~= before_src.skip(1));
            assert(format_views(src@) =~= format_views(before_src).skip(1));
        }
        assert(v@ == orig[i as int]) by {
            assert(before_src[0] == v);
            assert(format_views(before_src)[0] == orig.skip(i as int)[0]);
        }
        let mut p: usize = 0;
        while p < out.len() && format_before(&out[p], &v)
            invariant
                p <= out.len(),
                forall|j: int| 0 <= j < p ==> format_le(#[trigger] format_views(out@)[j], v@),
            decreases out.len() - p,
        {
            p = p + 1;
        }
        let ghost before_out = out@;
        proof {
            lemma_insert_format_at(format_views(out@), v@, p as int);
            assert(orig.take(i + 1).drop_last() =~= orig.take(i as int));
        }
        out.insert(p, v);
        assert(format_views(out@) =~= format_views(before_out).insert(p as int, v@));
        i = i + 1;
    }
    assert(orig.take(n as int) =~= orig);
    out
}

} // verus!
