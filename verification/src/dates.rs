//! Upload dates as the result list shows them.
use vstd::prelude::*;
use crate::text::{chars_of, parse_u32, parse_u32_text};

verus! {

broadcast use vstd::string::group_string_axioms;

/// The number of bytes UTF-8 takes for `c`.
pub open spec fn char_bytes(c: char) -> nat {
    if (c as u32) < 0x80 {
        1
    } else if (c as u32) < 0x800 {
        2
    } else if (c as u32) < 0x10000 {
        3
    } else {
        4
    }
}

/// The number of bytes UTF-8 takes for `s`.
pub open spec fn byte_len(s: Seq<char>) -> nat
    decreases s.len(),
{
    if s.len() == 0 {
        0
    } else {
        byte_len(s.drop_last()) + char_bytes(s.last())
    }
}

/// Some character of `s` starts at byte `b` (or `s` ends there).
pub open spec fn is_boundary(s: Seq<char>, b: nat) -> bool {
    exists|k: int| 0 <= k <= s.len() && #[trigger] byte_len(s.take(k)) == b
}

/// The number of characters before byte `b`, when it is a boundary.
pub open spec fn chars_before(s: Seq<char>, b: nat) -> int {
    choose|k: int| 0 <= k <= s.len() && #[trigger] byte_len(s.take(k)) == b
}

/// A date of eight bytes can be cut after its year and its month.
pub open spec fn date_cuttable(s: Seq<char>) -> bool {
    byte_len(s) == 8 ==> is_boundary(s, 4) && is_boundary(s, 6)
}

/// The short names of the months.
pub open spec fn month_names() -> Seq<Seq<char>> {
    seq!["Jan"@, "Feb"@, "Mar"@, "Apr"@, "May"@, "Jun"@, "Jul"@, "Aug"@, "Sep"@, "Oct"@, "Nov"@, "Dec"@]
}

/// An upload date as shown: a date of eight bytes `YYYYMMDD` is written
/// `Mon DD, YYYY` when its month is one to twelve, else `YYYY-MM-DD`; any
/// other text is shown as it is; no date is `Unknown`.
pub open spec fn upload_date_text(raw: Option<Seq<char>>) -> Seq<char> {
    match raw {
        None => "Unknown"@,
        Some(s) => if byte_len(s) == 8 {
            let k4 = chars_before(s, 4);
            let k6 = chars_before(s, 6);
            let y = s.take(k4);
            let m = s.subrange(k4, k6);
            let d = s.skip(k6);
            match parse_u32_text(m) {
                Some(n) if 1 <= n <= 12 => month_names()[n - 1] + " "@ + d + ", "@ + y,
                _ => y + "-"@ + m + "-"@ + d,
            }
        } else {
            s
        },
    }
}

proof fn lemma_take_step(s: Seq<char>, i: int)
    requires
        0 <= i < s.len(),
    ensures
        byte_len(s.take(i + 1)) == byte_len(s.take(i)) + char_bytes(s[i]),
{
    assert(s.take(i + 1).drop_last() =~= s.take(i));
}

proof fn lemma_take_increasing(s: Seq<char>, i: int, j: int)
    requires
        0 <= i < j <= s.len(),
    ensures
        byte_len(s.take(i)) < byte_len(s.take(j)),
    decreases j - i,
{
    lemma_take_step(s, j - 1);
    if i < j - 1 {
        lemma_take_increasing(s, i, j - 1);
    }
}

proof fn lemma_chars_before(s: Seq<char>, b: nat, k: int)
    requires
        0 <= k <= s.len(),
        byte_len(s.take(k)) == b,
    ensures
        chars_before(s, b) == k,
{
    let w = chars_before(s, b);
    assert(is_boundary(s, b));
    if w < k {
        lemma_take_increasing(s, w, k);
    } else if w > k {
        lemma_take_increasing(s, k, w);
    }
}

fn char_size(c: char) -> (n: u64)
    ensures
        n == char_bytes(c),
{
    let u = c as u32;
    if u < 0x80 {
        1
    } else if u < 0x800 {
        2
    } else if u < 0x10000 {
        3
    } else {
        4
    }
}

/// The short name of month `n` (one to twelve).
fn month_name(n: u32) -> (s: &'static str)
    requires
        1 <= n <= 12,
    ensures
        s@ == month_names()[n - 1],
{
    let names = ["Jan", "Feb", "Mar", "Apr", "May", "Jun", "Jul", "Aug", "Sep", "Oct", "Nov", "Dec"];
    proof {
        reveal_strlit("Jan");
        reveal_strlit("Feb");
        reveal_strlit("Mar");
        reveal_strlit("Apr");
        reveal_strlit("May");
        reveal_strlit("Jun");
        reveal_strlit("Jul");
        reveal_strlit("Aug");
        reveal_strlit("Sep");
        reveal_strlit("Oct");
        reveal_strlit("Nov");
        reveal_strlit("Dec");
    }
    names[(n - 1) as usize]
}

/// Appends the characters `a` to `b` of `c` to `out`.
fn push_range(out: &mut String, c: &Vec<char>, a: usize, b: usize)
    requires
        a <= b <= c@.len(),
    ensures
        final(out)@ == old(out)@ + c@.subrange(a as int, b as int),
{
    let mut i: usize = a;
    while i < b
        invariant
            a <= i <= b <= c@.len(),
            out@ == old(out)@ + c@.subrange(a as int, i as int),
        decreases b - i,
    {
        crate::text::push_char(out, c[i]);
        assert(c@.subrange(a as int, i + 1) =~= c@.subrange(a as int, i as int).push(c@[i as int]));
        i = i + 1;
    }
}

/// Where byte `b` starts in `c`, if it starts a character.
fn boundary_at(c: &Vec<char>, b: u64) -> (r: Option<usize>)
    requires
        b <= 8,
    ensures
        match r {
            Some(k) => k <= c@.len() && byte_len(c@.take(k as int)) == b,
            None => !is_boundary(c@, b as nat),
        },
{
    let mut acc: u64 = 0;
    let mut i: usize = 0;
    while i < c.len() && acc < b
        invariant
            i <= c@.len(),
            acc == byte_len(c@.take(i as int)),
            acc < b + 4,
            b <= 8,
            forall|j: int| 0 <= j < i ==> #[trigger] byte_len(c@.take(j)) < b,
        decreases c.len() - i,
    {
        proof {
            lemma_take_step(c@, i as int);
        }
        acc = acc + char_size(c[i]);
        i = i + 1;
    }
    if acc == b {
        return Some(i);
    }
    proof {
        assert forall|k: int| 0 <= k <= c@.len() implies #[trigger] byte_len(c@.take(k)) != b by {
            if k < i {
            } else if k > i {
                lemma_take_increasing(c@, i as int, k);
                if i == c@.len() {
                } else {
                    assert(acc >= b);
                }
            }
        }
    }
    None
}

/// Whether `c` takes exactly eight bytes.
fn eight_bytes(c: &Vec<char>) -> (r: bool)
    ensures
        r == (byte_len(c@) == 8),
{
    let mut acc: u64 = 0;
    let mut i: usize = 0;
    while i < c.len() && acc <= 8
        invariant
            i <= c@.len(),
            acc == byte_len(c@.take(i as int)),
            acc <= 12,
        decreases c.len() - i,
    {
        proof {
            lemma_take_step(c@, i as int);
        }
        acc = acc + char_size(c[i]);
        i = i + 1;
    }
    assert(c@.take(c@.len() as int) =~= c@);
    if i < c.len() {
        proof {
            lemma_take_increasing(c@, i as int, c@.len() as int);
        }
        return false;
    }
    acc == 8
}

/// An upload date as the result list shows it (see `upload_date_text`).
pub fn format_upload_date(raw: Option<&str>) -> (r: String)
    requires
        match raw {
            Some(s) => date_cuttable(s@),
            None => true,
        },
    ensures
        r@ == upload_date_text(match raw {
            Some(s) => Some(s@),
            None => None,
        }),
{
    let date = match raw {
        Some(d) => d,
        None => return String::from_str("Unknown"),
    };
    let c = chars_of(date);
    if !eight_bytes(&c) {
        return String::from_str(date);
    }
    let k4 = match boundary_at(&c, 4) {
        Some(k) => k,
        None => return String::from_str(date),
    };
    let k6 = match boundary_at(&c, 6) {
        Some(k) => k,
        None => return String::from_str(date),
    };
    proof {
        lemma_chars_before(c@, 4, k4 as int);
        lemma_chars_before(c@, 6, k6 as int);
        if k6 < k4 {
            lemma_take_increasing(c@, k6 as int, k4 as int);
        }
    }
    let mut m = String::new();
    push_range(&mut m, &c, k4, k6);
    let month = parse_u32(m.as_str());
    let mut r = String::new();
    match month {
        Some(n) if 1 <= n && n <= 12 => {
            r.append(month_name(n));
            r.append(" ");
            push_range(&mut r, &c, k6, c.len());
            r.append(", ");
            push_range(&mut r, &c, 0, k4);
            assert(c@.subrange(k6 as int, c@.len() as int) =~= c@.skip(k6 as int));
            assert(c@.subrange(0, k4 as int) =~= c@.take(k4 as int));
        },
        _ => {
            push_range(&mut r, &c, 0, k4);
            r.append("-");
            r.append(m.as_str());
            r.append("-");
            push_range(&mut r, &c, k6, c.len());
            assert(c@.subrange(k6 as int, c@.len() as int) =~= c@.skip(k6 as int));
            assert(c@.subrange(0, k4 as int) =~= c@.take(k4 as int));
        },
    }
    r
}

} // verus!
