//! Downloads through `yt-dlp`: the command line of a download and the
//! reading of its progress lines.
use vstd::prelude::*;
use crate::text::{is_ws, is_whitespace, chars_of, starts_with, str_eq, str_starts_with, string_of};
use crate::yt::texts;

verus! {

broadcast use vstd::string::group_string_axioms;

/// The words of `s` after the word `cur` already begun: the runs of
/// characters between white space.
pub open spec fn words_from(s: Seq<char>, cur: Seq<char>) -> Seq<Seq<char>>
    decreases s.len(),
{
    if s.len() == 0 {
        if cur.len() > 0 {
            seq![cur]
        } else {
            Seq::empty()
        }
    } else if is_ws(s[0]) {
        (if cur.len() > 0 {
            seq![cur]
        } else {
            Seq::empty()
        }) + words_from(s.drop_first(), Seq::empty())
    } else {
        words_from(s.drop_first(), cur.push(s[0]))
    }
}

/// The words of `s` (`str::split_whitespace`).
pub open spec fn words(s: Seq<char>) -> Seq<Seq<char>> {
    words_from(s, Seq::empty())
}

/// The texts of a list of character lists.
pub open spec fn char_texts(v: Seq<Vec<char>>) -> Seq<Seq<char>> {
    v.map_values(|l: Vec<char>| l@)
}

/// The words of `s`.
pub fn split_words(s: &str) -> (r: Vec<Vec<char>>)
    ensures
        char_texts(r@) == words(s@),
{
    let v = chars_of(s);
    let mut out: Vec<Vec<char>> = Vec::new();
    let mut cur: Vec<char> = Vec::new();
    let mut i: usize = 0;
    assert(v@.skip(0) =~= v@);
    while i < v.len()
        invariant
            i <= v.len(),
            v@ == s@,
            char_texts(out@) + words_from(v@.skip(i as int), cur@) == words(v@),
        decreases v.len() - i,
    {
        let c = v[i];
        let ghost cur0 = cur@;
        let ghost before = char_texts(out@);
        assert(v@.skip(i as int).drop_first() =~= v@.skip(i + 1));
        if is_whitespace(c) {
            if cur.len() > 0 {
                let w = cur;
                out.push(w);
                assert(char_texts(out@) =~= before.push(cur0));
                cur = Vec::new();
                assert(before + words_from(v@.skip(i as int), cur0) =~= before.push(cur0)
                    + words_from(v@.skip(i + 1), cur@));
            } else {
                assert(cur0 =~= Seq::<char>::empty());
                assert(Seq::<Seq<char>>::empty() + words_from(v@.skip(i + 1), Seq::empty())
                    =~= words_from(v@.skip(i + 1), Seq::empty()));
                assert(before + words_from(v@.skip(i as int), cur0) =~= before + words_from(
                    v@.skip(i + 1),
                    cur@,
                ));
            }
        } else {
            cur.push(c);
        }
        i = i + 1;
    }
    if cur.len() > 0 {
        let ghost before = char_texts(out@);
        let ghost last = cur@;
        out.push(cur);
        assert(char_texts(out@) =~= before.push(last));
        assert(before + words_from(v@.skip(v.len() as int), last) =~= before.push(last));
    } else {
        assert(char_texts(out@) + words_from(v@.skip(v.len() as int), cur@) =~= char_texts(out@));
    }
    out
}

/// `s` without the copies of `c` at its end.
pub open spec fn strip_trailing(s: Seq<char>, c: char) -> Seq<char>
    decreases s.len(),
{
    if s.len() > 0 && s.last() == c {
        strip_trailing(s.drop_last(), c)
    } else {
        s
    }
}

/// `s` without the copies of `c` at its start.
pub open spec fn strip_leading(s: Seq<char>, c: char) -> Seq<char>
    decreases s.len(),
{
    if s.len() > 0 && s[0] == c {
        strip_leading(s.drop_first(), c)
    } else {
        s
    }
}

/// `s` without the copies of `c` at its end (`trim_end_matches`).
fn trim_end_char(s: &[char], c: char) -> (r: Vec<char>)
    ensures
        r@ == strip_trailing(s@, c),
{
    let mut n: usize = s.len();
    assert(s@.take(n as int) =~= s@);
    while n > 0 && s[n - 1] == c
        invariant
            n <= s.len(),
            strip_trailing(s@, c) == strip_trailing(s@.take(n as int), c),
        decreases n,
    {
        assert(s@.take(n as int).drop_last() =~= s@.take(n - 1));
        n = n - 1;
    }
    let mut r: Vec<char> = Vec::new();
    let mut k: usize = 0;
    while k < n
        invariant
            k <= n <= s.len(),
            r@ == s@.take(k as int),
        decreases n - k,
    {
        r.push(s[k]);
        k = k + 1;
        assert(r@ =~= s@.take(k as int));
    }
    r
}

/// `s` without the copies of `c` at its start (`trim_start_matches`).
fn trim_start_char(s: &[char], c: char) -> (r: Vec<char>)
    ensures
        r@ == strip_leading(s@, c),
{
    let mut i: usize = 0;
    assert(s@.skip(0) =~= s@);
    while i < s.len() && s[i] == c
        invariant
            i <= s.len(),
            strip_leading(s@, c) == strip_leading(s@.skip(i as int), c),
        decreases s.len() - i,
    {
        assert(s@.skip(i as int).drop_first() =~= s@.skip(i + 1));
        i = i + 1;
    }
    let mut r: Vec<char> = Vec::new();
    let mut k: usize = i;
    while k < s.len()
        invariant
            i <= k <= s.len(),
            r@ == s@.subrange(i as int, k as int),
        decreases s.len() - k,
    {
        r.push(s[k]);
        k = k + 1;
        assert(r@ =~= s@.subrange(i as int, k as int));
    }
    assert(r@ =~= s@.skip(i as int));
    r
}

/// The speed and the time left that the words from position 4 up to `n`
/// report: the word after `at` and the word after `ETA`, the last ones
/// found winning.
pub open spec fn speed_and_eta(parts: Seq<Seq<char>>, n: int) -> (Seq<char>, Seq<char>)
    decreases n,
{
    if n <= 4 {
        (Seq::empty(), Seq::empty())
    } else {
        let (sp, et) = speed_and_eta(parts, n - 1);
        let i = n - 1;
        if parts[i] == "at"@ && i + 1 < parts.len() {
            (parts[i + 1], et)
        } else if parts[i] == "ETA"@ && i + 1 < parts.len() {
            (sp, parts[i + 1])
        } else {
            (sp, et)
        }
    }
}

/// Where a reading of a decimal number stands after some characters: 0 at
/// the start, 1 in the digits before a point, 2 after a point with no digit
/// yet, 3 in a number with its point, 4 after the `e` of an exponent, 5
/// after the exponent's sign, 6 in the exponent's digits, 7 past a mistake.
/// The readings that end in 1, 3 or 6 are numbers: digits with at most one
/// point and at least one digit, then optionally `e` or `E`, an optional
/// sign and digits.
pub open spec fn number_step(state: u8, c: char) -> u8 {
    let digit = '0' <= c <= '9';
    let e = c == 'e' || c == 'E';
    let sign = c == '+' || c == '-';
    if state == 0 {
        if digit { 1 } else if c == '.' { 2 } else { 7 }
    } else if state == 1 {
        if digit { 1 } else if c == '.' { 3 } else if e { 4 } else { 7 }
    } else if state == 2 {
        if digit { 3 } else { 7 }
    } else if state == 3 {
        if digit { 3 } else if e { 4 } else { 7 }
    } else if state == 4 {
        if sign { 5 } else if digit { 6 } else { 7 }
    } else if state == 5 || state == 6 {
        if digit { 6 } else { 7 }
    } else {
        7
    }
}

/// The state of a reading of `s` (see `number_step`).
pub open spec fn number_state(s: Seq<char>) -> u8
    decreases s.len(),
{
    if s.len() == 0 {
        0
    } else {
        number_step(number_state(s.drop_last()), s.last())
    }
}

/// `s` is the word `w` (of small ASCII letters) in any case.
pub open spec fn word_in_any_case(s: Seq<char>, w: Seq<char>) -> bool {
    s.len() == w.len() && forall|i: int| 0 <= i < s.len() ==> s[i] == w[i] || (s[i] as u32) + 32 == (w[i] as u32)
}

/// Whether `s` reads as an `f64` (std's `f64::from_str` grammar): an
/// optional sign, then `inf`, `infinity` or `nan` in any case, or a decimal
/// number (see `number_step`).
pub open spec fn float_text(s: Seq<char>) -> bool {
    let t = if s.len() > 0 && (s[0] == '+' || s[0] == '-') { s.drop_first() } else { s };
    ||| word_in_any_case(t, "inf"@)
    ||| word_in_any_case(t, "infinity"@)
    ||| word_in_any_case(t, "nan"@)
    ||| (number_state(t) == 1 || number_state(t) == 3 || number_state(t) == 6)
}

/// One step of a reading (see `number_step`).
fn next_number_state(state: u8, c: char) -> (r: u8)
    ensures
        r == number_step(state, c),
{
    let digit = '0' <= c && c <= '9';
    let e = c == 'e' || c == 'E';
    let sign = c == '+' || c == '-';
    if state == 0 {
        if digit { 1 } else if c == '.' { 2 } else { 7 }
    } else if state == 1 {
        if digit { 1 } else if c == '.' { 3 } else if e { 4 } else { 7 }
    } else if state == 2 {
        if digit { 3 } else { 7 }
    } else if state == 3 {
        if digit { 3 } else if e { 4 } else { 7 }
    } else if state == 4 {
        if sign { 5 } else if digit { 6 } else { 7 }
    } else if state == 5 || state == 6 {
        if digit { 6 } else { 7 }
    } else {
        7
    }
}

/// Whether `s[from..]` is the word `w` in any case.
fn is_word_in_any_case(s: &[char], from: usize, w: &str) -> (b: bool)
    requires
        from <= s@.len(),
    ensures
        b == word_in_any_case(s@.skip(from as int), w@),
{
    let wv = chars_of(w);
    if s.len() - from != wv.len() {
        return false;
    }
    let mut i: usize = 0;
    while i < wv.len()
        invariant
            i <= wv@.len(),
            from + wv.len() == s.len(),
            wv@ == w@,
            forall|j: int| 0 <= j < i ==> s@.skip(from as int)[j] == wv@[j] || (s@.skip(from as int)[j] as u32) + 32
                == (wv@[j] as u32),
        decreases wv.len() - i,
    {
        let c = s[from + i];
        let l = wv[i];
        let lu = l as u32;
        if !(c == l || (lu >= 32 && (c as u32) == lu - 32)) {
            assert(s@.skip(from as int)[i as int] == c);
            return false;
        }
        i = i + 1;
    }
    true
}

/// Whether `s` reads as an `f64` (see `float_text`).
pub fn is_float_text(s: &[char]) -> (b: bool)
    ensures
        b == float_text(s@),
{
    let from: usize = if s.len() > 0 && (s[0] == '+' || s[0] == '-') { 1 } else { 0 };
    let ghost t = s@.skip(from as int);
    assert(t =~= (if s@.len() > 0 && (s@[0] == '+' || s@[0] == '-') { s@.drop_first() } else { s@ }));
    if is_word_in_any_case(s, from, "inf") || is_word_in_any_case(s, from, "infinity") || is_word_in_any_case(
        s,
        from,
        "nan",
    ) {
        return true;
    }
    let mut state: u8 = 0;
    let mut i: usize = from;
    while i < s.len()
        invariant
            from <= i <= s@.len(),
            t == s@.skip(from as int),
            state == number_state(t.take(i - from)),
        decreases s.len() - i,
    {
        assert(t.take(i + 1 - from).drop_last() =~= t.take(i - from));
        assert(t.take(i + 1 - from).last() == s@[i as int]);
        state = next_number_state(state, s[i]);
        i = i + 1;
    }
    assert(t.take(i - from) =~= t);
    state == 1 || state == 3 || state == 6
}

/// What a progress line of a download reports.
pub struct Progress {
    /// The percentage done, as written (without the `%`); the caller reads
    /// the number.
    pub percent: String,
    pub total_size: String,
    pub speed: String,
    pub eta: String,
}

/// What a line of `yt-dlp --newline` output reports, if it is a progress
/// line such as `[download]  1.5% of ~4.30MiB at 2.50MiB/s ETA 00:01`: the
/// second word without its `%` (the percentage, which must read as an
/// `f64`; the caller reads the number), the fourth word without a leading
/// `~`, and the words after `at` and `ETA`.
pub open spec fn progress_of(line: Seq<char>) -> Option<(Seq<char>, Seq<char>, Seq<char>, Seq<char>)> {
    let parts = words(line);
    if !starts_with(line, "[download]"@) || parts.len() < 4 || !float_text(strip_trailing(parts[1], '%')) {
        None
    } else {
        let (sp, et) = speed_and_eta(parts, parts.len() as int);
        Some((strip_trailing(parts[1], '%'), strip_leading(parts[3], '~'), sp, et))
    }
}

/// Whether the character list `v` is the text `lit`.
fn is_word_text(v: &[char], lit: &str) -> (b: bool)
    ensures
        b == (v@ == lit@),
{
    let l = chars_of(lit);
    crate::text::same_chars(v, l.as_slice())
}

/// Reads a line of `yt-dlp` download output (see `progress_of`).
pub fn parse_progress(line: &str) -> (r: Option<Progress>)
    ensures
        match r {
            Some(p) => progress_of(line@) == Some((p.percent@, p.total_size@, p.speed@, p.eta@)),
            None => progress_of(line@) is None,
        },
{
    if !str_starts_with(line, "[download]") {
        return None;
    }
    let parts = split_words(line);
    let ghost ps = words(line@);
    assert(parts@.len() == ps.len());
    if parts.len() < 4 {
        return None;
    }
    assert(char_texts(parts@)[1] == parts@[1]@);
    assert(char_texts(parts@)[3] == parts@[3]@);
    let pct = trim_end_char(parts[1].as_slice(), '%');
    if !is_float_text(pct.as_slice()) {
        return None;
    }
    let size = trim_start_char(parts[3].as_slice(), '~');
    let mut speed: Vec<char> = Vec::new();
    let mut eta: Vec<char> = Vec::new();
    let mut i: usize = 4;
    while i < parts.len()
        invariant
            4 <= i <= parts.len(),
            char_texts(parts@) == ps,
            speed_and_eta(ps, i as int) == (speed@, eta@),
        decreases parts.len() - i,
    {
        assert(char_texts(parts@)[i as int] == parts@[i as int]@);
        if is_word_text(parts[i].as_slice(), "at") && i + 1 < parts.len() {
            assert(char_texts(parts@)[i + 1] == parts@[i + 1]@);
            speed = parts[i + 1].clone();
        } else if is_word_text(parts[i].as_slice(), "ETA") && i + 1 < parts.len() {
            assert(char_texts(parts@)[i + 1] == parts@[i + 1]@);
            eta = parts[i + 1].clone();
        }
        i = i + 1;
    }
    Some(
        Progress {
            percent: string_of(pct.as_slice()),
            total_size: string_of(size.as_slice()),
            speed: string_of(speed.as_slice()),
            eta: string_of(eta.as_slice()),
        },
    )
}

/// The format expression a download asks for: the best picture and sound
/// for `best`, else the chosen format merged with the best sound.
pub open spec fn download_format(format_id: Seq<char>) -> Seq<char> {
    if format_id == "best"@ {
        "bestvideo+bestaudio/best"@
    } else {
        format_id + "+bestaudio/best"@
    }
}

/// The arguments of the `yt-dlp` run that downloads `url` in `format_id`
/// into `dir`: files named by title (at most 150 characters) and id, one
/// progress line per update, and the video's JSON written beside the file.
pub open spec fn download_arg_list(url: Seq<char>, format_id: Seq<char>, dir: Seq<char>) -> Seq<Seq<char>> {
    seq![
        "-f"@,
        download_format(format_id),
        "-P"@,
        dir,
        "-o"@,
        "%(title).150s - %(id)s.%(ext)s"@,
        "--newline"@,
        "--progress"@,
        "--write-info-json"@,
        url,
    ]
}

/// The arguments of a download (see `download_arg_list`).
pub fn download_args(url: &str, format_id: &str, dir: &str) -> (args: Vec<String>)
    ensures
        texts(args@) == download_arg_list(url@, format_id@, dir@),
{
    let format = if str_eq(format_id, "best") {
        String::from_str("bestvideo+bestaudio/best")
    } else {
        let mut f = String::from_str(format_id);
        f.append("+bestaudio/best");
        f
    };
    let mut v: Vec<String> = Vec::new();
    v.push(String::from_str("-f"));
    v.push(format);
    v.push(String::from_str("-P"));
    v.push(String::from_str(dir));
    v.push(String::from_str("-o"));
    v.push(String::from_str("%(title).150s - %(id)s.%(ext)s"));
    v.push(String::from_str("--newline"));
    v.push(String::from_str("--progress"));
    v.push(String::from_str("--write-info-json"));
    v.push(String::from_str(url));
    assert(texts(v@) =~= download_arg_list(url@, format_id@, dir@));
    v
}

} // verus!
