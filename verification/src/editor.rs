//! The one-line text editor behind the search bar and the settings input.
use vstd::prelude::*;
use crate::text::{is_ws, is_whitespace, chars_of, string_of};

verus! {

/// Position reached from `i` by stepping left over white space.
pub open spec fn skip_ws_back(s: Seq<char>, i: int) -> int
    decreases i,
{
    if 0 < i <= s.len() && is_ws(s[i - 1]) {
        skip_ws_back(s, i - 1)
    } else {
        i
    }
}

/// Position reached from `i` by stepping left over non-white characters.
pub open spec fn skip_word_back(s: Seq<char>, i: int) -> int
    decreases i,
{
    if 0 < i <= s.len() && !is_ws(s[i - 1]) {
        skip_word_back(s, i - 1)
    } else {
        i
    }
}

/// Where a move one word to the left from `cur` lands: past the white space
/// before the cursor, then to the start of the word before it.
pub open spec fn word_left(s: Seq<char>, cur: int) -> int {
    skip_word_back(s, skip_ws_back(s, cur))
}

/// From `i`, step right over white space and then over one more character.
pub open spec fn skip_ws_fwd(s: Seq<char>, i: int) -> int
    decreases s.len() - i,
{
    if 0 <= i < s.len() {
        if is_ws(s[i]) {
            skip_ws_fwd(s, i + 1)
        } else {
            i + 1
        }
    } else {
        i
    }
}

/// From `i`, step right over non-white characters and then over the white
/// character that ends them.
pub open spec fn skip_word_fwd(s: Seq<char>, i: int) -> int
    decreases s.len() - i,
{
    if 0 <= i < s.len() {
        if is_ws(s[i]) {
            i + 1
        } else {
            skip_word_fwd(s, i + 1)
        }
    } else {
        i
    }
}

/// Where a move one word to the right from `cur` lands: past the white space
/// and the word after the cursor, and past the white character that ends it.
pub open spec fn word_right(s: Seq<char>, cur: int) -> int {
    if cur >= s.len() {
        cur
    } else {
        skip_word_fwd(s, skip_ws_fwd(s, cur))
    }
}

proof fn lemma_skip_ws_back_range(s: Seq<char>, i: int)
    requires
        0 <= i <= s.len(),
    ensures
        0 <= skip_ws_back(s, i) <= i,
    decreases i,
{
    if 0 < i && is_ws(s[i - 1]) {
        lemma_skip_ws_back_range(s, i - 1);
    }
}

proof fn lemma_skip_word_back_range(s: Seq<char>, i: int)
    requires
        0 <= i <= s.len(),
    ensures
        0 <= skip_word_back(s, i) <= i,
    decreases i,
{
    if 0 < i && !is_ws(s[i - 1]) {
        lemma_skip_word_back_range(s, i - 1);
    }
}

proof fn lemma_skip_ws_fwd_range(s: Seq<char>, i: int)
    requires
        0 <= i <= s.len(),
    ensures
        i <= skip_ws_fwd(s, i) <= s.len(),
    decreases s.len() - i,
{
    if i < s.len() && is_ws(s[i]) {
        lemma_skip_ws_fwd_range(s, i + 1);
    }
}

proof fn lemma_skip_word_fwd_range(s: Seq<char>, i: int)
    requires
        0 <= i <= s.len(),
    ensures
        i <= skip_word_fwd(s, i) <= s.len(),
    decreases s.len() - i,
{
    if i < s.len() && !is_ws(s[i]) {
        lemma_skip_word_fwd_range(s, i + 1);
    }
}

/// A word move to the left stays within `0..=cur`.
pub proof fn lemma_word_left_range(s: Seq<char>, cur: int)
    requires
        0 <= cur <= s.len(),
    ensures
        0 <= word_left(s, cur) <= cur,
{
    lemma_skip_ws_back_range(s, cur);
    lemma_skip_word_back_range(s, skip_ws_back(s, cur));
}

/// A word move to the right stays within `cur..=len`.
pub proof fn lemma_word_right_range(s: Seq<char>, cur: int)
    requires
        0 <= cur <= s.len(),
    ensures
        cur <= word_right(s, cur) <= s.len(),
{
    if cur < s.len() {
        lemma_skip_ws_fwd_range(s, cur);
        lemma_skip_word_fwd_range(s, skip_ws_fwd(s, cur));
    }
}

/// One line of editable text with a cursor, counted in characters.
pub struct LineBuffer {
    text: Vec<char>,
    cursor: usize,
}

impl View for LineBuffer {
    type V = (Seq<char>, nat);

    closed spec fn view(&self) -> (Seq<char>, nat) {
        (self.text@, self.cursor as nat)
    }
}

impl LineBuffer {
    #[verifier::type_invariant]
    spec fn inv(self) -> bool {
        self.cursor <= self.text.len()
    }

    /// An empty buffer.
    pub fn new() -> (b: Self)
        ensures
            b@ == (Seq::<char>::empty(), 0nat),
    {
        LineBuffer { text: Vec::new(), cursor: 0 }
    }

    /// A buffer holding `s`, with the cursor at its end.
    pub fn from_text(s: &str) -> (b: Self)
        ensures
            b@ == (s@, s@.len()),
    {
        let text = chars_of(s);
        let n = text.len();
        LineBuffer { text, cursor: n }
    }

    /// The text.
    pub fn text(&self) -> (s: String)
        ensures
            s@ == self@.0,
    {
        string_of(self.text.as_slice())
    }

    /// The cursor position, in characters from the start.
    pub fn cursor(&self) -> (c: usize)
        ensures
            c == self@.1,
            c <= self@.0.len(),
    {
        proof { use_type_invariant(self); }
        self.cursor
    }

    /// Whether the text is empty.
    pub fn is_empty(&self) -> (b: bool)
        ensures
            b == (self@.0.len() == 0),
    {
        self.text.len() == 0
    }

    /// Empties the buffer.
    pub fn clear(&mut self)
        ensures
            final(self)@ == (Seq::<char>::empty(), 0nat),
    {
        *self = LineBuffer { text: Vec::new(), cursor: 0 };
    }

    /// Inserts `c` at the cursor and moves the cursor past it.
    pub fn insert_char(&mut self, c: char)
        ensures
            final(self)@.0 == old(self)@.0.insert(old(self)@.1 as int, c),
            final(self)@.1 == old(self)@.1 + 1,
    {
        proof { use_type_invariant(&*self); }
        let cur = self.cursor;
        let mut text = self.text.clone();
        text.insert(cur, c);
        assert(cur < text.len());
        *self = LineBuffer { text, cursor: cur + 1 };
    }

    /// Inserts `s` at the cursor and moves the cursor past it.
    pub fn insert_str(&mut self, s: &str)
        ensures
            final(self)@.0 == old(self)@.0.take(old(self)@.1 as int) + s@ + old(self)@.0.skip(
                old(self)@.1 as int,
            ),
            final(self)@.1 == old(self)@.1 + s@.len(),
    {
        proof { use_type_invariant(&*self); }
        let add = chars_of(s);
        let cur = self.cursor;
        let mut out: Vec<char> = Vec::new();
        let mut i: usize = 0;
        while i < cur
            invariant
                cur <= self.text.len(),
                i <= cur,
                out@ == self.text@.take(i as int),
            decreases cur - i,
        {
            out.push(self.text[i]);
            i = i + 1;
            assert(out@ =~= self.text@.take(i as int));
        }
        let mut j: usize = 0;
        while j < add.len()
            invariant
                cur <= self.text.len(),
                j <= add.len(),
                out@ == self.text@.take(cur as int) + add@.take(j as int),
            decreases add.len() - j,
        {
            out.push(add[j]);
            j = j + 1;
            assert(out@ =~= self.text@.take(cur as int) + add@.take(j as int));
        }
        let mut k: usize = cur;
        while k < self.text.len()
            invariant
                cur <= k <= self.text.len(),
                out@ == self.text@.take(cur as int) + add@ + self.text@.subrange(
                    cur as int,
                    k as int,
                ),
            decreases self.text.len() - k,
        {
            out.push(self.text[k]);
            k = k + 1;
            assert(out@ =~= self.text@.take(cur as int) + add@ + self.text@.subrange(
                cur as int,
                k as int,
            ));
        }
        assert(add@.take(add.len() as int) =~= add@);
        assert(self.text@.subrange(cur as int, self.text.len() as int) =~= self.text@.skip(
            cur as int,
        ));
        let n = add.len();
        assert(cur + n <= out.len());
        *self = LineBuffer { text: out, cursor: cur + n };
    }

    /// Removes the character before the cursor, if any, and moves the cursor onto its place.
    pub fn backspace(&mut self)
        ensures
            old(self)@.1 == 0 ==> final(self)@ == old(self)@,
            old(self)@.1 > 0 ==> final(self)@.0 == old(self)@.0.remove(old(self)@.1 - 1)
                && final(self)@.1 == old(self)@.1 - 1,
    {
        proof { use_type_invariant(&*self); }
        if self.cursor > 0 {
            let cur = self.cursor - 1;
            let mut text = self.text.clone();
            text.remove(cur);
            *self = LineBuffer { text, cursor: cur };
        }
    }

    /// Removes the character at the cursor, if any; the cursor stays.
    pub fn delete(&mut self)
        ensures
            old(self)@.1 < old(self)@.0.len() ==> final(self)@ == (
                old(self)@.0.remove(old(self)@.1 as int),
                old(self)@.1,
            ),
            old(self)@.1 >= old(self)@.0.len() ==> final(self)@ == old(self)@,
    {
        proof { use_type_invariant(&*self); }
        if self.cursor < self.text.len() {
            let cur = self.cursor;
            let mut text = self.text.clone();
            text.remove(cur);
            *self = LineBuffer { text, cursor: cur };
        }
    }

    /// Moves the cursor one character left, if it can.
    pub fn move_left(&mut self)
        ensures
            final(self)@.0 == old(self)@.0,
            final(self)@.1 == if old(self)@.1 > 0 { old(self)@.1 - 1 } else { 0 },
    {
        proof { use_type_invariant(&*self); }
        if self.cursor > 0 {
            let c = self.cursor - 1;
            *self = LineBuffer { text: self.text.clone(), cursor: c };
        }
    }

    /// Moves the cursor one character right, if it can.
    pub fn move_right(&mut self)
        ensures
            final(self)@.0 == old(self)@.0,
            final(self)@.1 == if old(self)@.1 < old(self)@.0.len() {
                old(self)@.1 + 1
            } else {
                old(self)@.1
            },
    {
        proof { use_type_invariant(&*self); }
        if self.cursor < self.text.len() {
            let c = self.cursor + 1;
            *self = LineBuffer { text: self.text.clone(), cursor: c };
        }
    }

    /// Moves the cursor to the start of the line.
    pub fn home(&mut self)
        ensures
            final(self)@ == (old(self)@.0, 0nat),
    {
        *self = LineBuffer { text: self.text.clone(), cursor: 0 };
    }

    /// Moves the cursor to the end of the line.
    pub fn end(&mut self)
        ensures
            final(self)@ == (old(self)@.0, old(self)@.0.len()),
    {
        let n = self.text.len();
        *self = LineBuffer { text: self.text.clone(), cursor: n };
    }

    /// Removes everything before the cursor (Ctrl+U).
    pub fn kill_to_start(&mut self)
        ensures
            final(self)@ == (old(self)@.0.skip(old(self)@.1 as int), 0nat),
    {
        proof { use_type_invariant(&*self); }
        let cur = self.cursor;
        let mut out: Vec<char> = Vec::new();
        let mut k: usize = cur;
        while k < self.text.len()
            invariant
                cur <= k <= self.text.len(),
                out@ == self.text@.subrange(cur as int, k as int),
            decreases self.text.len() - k,
        {
            out.push(self.text[k]);
            k = k + 1;
            assert(out@ =~= self.text@.subrange(cur as int, k as int));
        }
        assert(self.text@.subrange(cur as int, self.text.len() as int) =~= self.text@.skip(
            cur as int,
        ));
        *self = LineBuffer { text: out, cursor: 0 };
    }

    /// Removes everything from the cursor on (Ctrl+K).
    pub fn kill_to_end(&mut self)
        ensures
            final(self)@ == (old(self)@.0.take(old(self)@.1 as int), old(self)@.1),
    {
        proof { use_type_invariant(&*self); }
        let cur = self.cursor;
        let mut text = self.text.clone();
        text.truncate(cur);
        *self = LineBuffer { text, cursor: cur };
    }

    /// The position a word move to the left would reach.
    fn word_left_pos(&self) -> (p: usize)
        ensures
            p == word_left(self@.0, self@.1 as int),
            p <= self@.1,
    {
        proof {
            use_type_invariant(self);
            lemma_word_left_range(self.text@, self.cursor as int);
        }
        let mut i = self.cursor;
        while i > 0 && is_whitespace(self.text[i - 1])
            invariant
                i <= self.cursor <= self.text.len(),
                skip_ws_back(self.text@, i as int) == skip_ws_back(self.text@, self.cursor as int),
            decreases i,
        {
            i = i - 1;
        }
        let ghost mid = i;
        while i > 0 && !is_whitespace(self.text[i - 1])
            invariant
                i <= mid <= self.text.len(),
                mid == skip_ws_back(self.text@, self.cursor as int),
                skip_word_back(self.text@, i as int) == skip_word_back(self.text@, mid as int),
            decreases i,
        {
            i = i - 1;
        }
        i
    }

    /// Moves the cursor to the start of the word before it (Ctrl+Left).
    pub fn move_word_left(&mut self)
        ensures
            final(self)@ == (old(self)@.0, word_left(old(self)@.0, old(self)@.1 as int) as nat),
    {
        proof { use_type_invariant(&*self); }
        let p = self.word_left_pos();
        *self = LineBuffer { text: self.text.clone(), cursor: p };
    }

    /// Moves the cursor past the word after it (Ctrl+Right).
    pub fn move_word_right(&mut self)
        ensures
            final(self)@ == (old(self)@.0, word_right(old(self)@.0, old(self)@.1 as int) as nat),
    {
        proof {
            use_type_invariant(&*self);
            lemma_word_right_range(self.text@, self.cursor as int);
        }
        let n = self.text.len();
        if self.cursor >= n {
            return;
        }
        let mut i = self.cursor;
        while i < n && is_whitespace(self.text[i])
            invariant
                self.cursor <= i <= n,
                n == self.text.len(),
                skip_ws_fwd(self.text@, i as int) == skip_ws_fwd(self.text@, self.cursor as int),
            decreases n - i,
        {
            i = i + 1;
        }
        if i < n {
            i = i + 1;
        }
        let ghost mid = i;
        while i < n && !is_whitespace(self.text[i])
            invariant
                mid <= i <= n,
                n == self.text.len(),
                mid == skip_ws_fwd(self.text@, self.cursor as int),
                skip_word_fwd(self.text@, i as int) == skip_word_fwd(self.text@, mid as int),
            decreases n - i,
        {
            i = i + 1;
        }
        if i < n {
            i = i + 1;
        }
        let c = i;
        *self = LineBuffer { text: self.text.clone(), cursor: c };
    }

    /// Removes the word before the cursor together with the white space
    /// between it and the cursor (Ctrl+W, Ctrl+Backspace).
    pub fn delete_word_backwards(&mut self)
        ensures
            final(self)@.0 == old(self)@.0.take(word_left(old(self)@.0, old(self)@.1 as int))
                + old(self)@.0.skip(old(self)@.1 as int),
            final(self)@.1 == word_left(old(self)@.0, old(self)@.1 as int),
    {
        proof { use_type_invariant(&*self); }
        let start = self.word_left_pos();
        let cur = self.cursor;
        let mut out: Vec<char> = Vec::new();
        let mut i: usize = 0;
        while i < start
            invariant
                start <= cur <= self.text.len(),
                i <= start,
                out@ == self.text@.take(i as int),
            decreases start - i,
        {
            out.push(self.text[i]);
            i = i + 1;
            assert(out@ =~= self.text@.take(i as int));
        }
        let mut k: usize = cur;
        while k < self.text.len()
            invariant
                start <= cur <= k <= self.text.len(),
                out@ == self.text@.take(start as int) + self.text@.subrange(cur as int, k as int),
            decreases self.text.len() - k,
        {
            out.push(self.text[k]);
            k = k + 1;
            assert(out@ =~= self.text@.take(start as int) + self.text@.subrange(
                cur as int,
                k as int,
            ));
        }
        assert(self.text@.subrange(cur as int, self.text.len() as int) =~= self.text@.skip(
            cur as int,
        ));
        *self = LineBuffer { text: out, cursor: start };
    }
}

/// Typing a character and then deleting it with Backspace gives back the
/// text as it was, with the cursor where it was.
pub proof fn law_backspace_undoes_insert(text: Seq<char>, cur: nat, c: char)
    requires
        cur <= text.len(),
    ensures
        text.insert(cur as int, c).remove(cur as int) == text,
        (cur + 1) - 1 == cur,
{
    assert(text.insert(cur as int, c).remove(cur as int) =~= text);
}


/// A change to a line being typed.
#[derive(Clone, Copy, Debug, PartialEq, Eq, Structural)]
pub enum EditOp {
    Insert(char),
    Backspace,
    Delete,
    Left,
    Right,
    WordLeft,
    WordRight,
    Home,
    End,
    KillToStart,
    KillToEnd,
    DeleteWord,
}

/// The line (text and cursor) after `op`.
pub open spec fn edited(op: EditOp, v: (Seq<char>, nat)) -> (Seq<char>, nat) {
    let (t, c) = v;
    match op {
        EditOp::Insert(ch) => (t.insert(c as int, ch), c + 1),
        EditOp::Backspace => if c > 0 { (t.remove(c - 1), (c - 1) as nat) } else { v },
        EditOp::Delete => if c < t.len() { (t.remove(c as int), c) } else { v },
        EditOp::Left => (t, if c > 0 { (c - 1) as nat } else { 0 }),
        EditOp::Right => (t, if c < t.len() { c + 1 } else { c }),
        EditOp::WordLeft => (t, word_left(t, c as int) as nat),
        EditOp::WordRight => (t, word_right(t, c as int) as nat),
        EditOp::Home => (t, 0),
        EditOp::End => (t, t.len()),
        EditOp::KillToStart => (t.skip(c as int), 0),
        EditOp::KillToEnd => (t.take(c as int), c),
        EditOp::DeleteWord => (t.take(word_left(t, c as int)) + t.skip(c as int), word_left(t, c as int) as nat),
    }
}

impl LineBuffer {
    /// Applies `op` to the line (see `edited`).
    pub fn apply(&mut self, op: EditOp)
        ensures
            final(self)@ == edited(op, old(self)@),
    {
        match op {
            EditOp::Insert(ch) => self.insert_char(ch),
            EditOp::Backspace => self.backspace(),
            EditOp::Delete => self.delete(),
            EditOp::Left => self.move_left(),
            EditOp::Right => self.move_right(),
            EditOp::WordLeft => self.move_word_left(),
            EditOp::WordRight => self.move_word_right(),
            EditOp::Home => self.home(),
            EditOp::End => self.end(),
            EditOp::KillToStart => self.kill_to_start(),
            EditOp::KillToEnd => self.kill_to_end(),
            EditOp::DeleteWord => self.delete_word_backwards(),
        }
    }
}
} // verus!
