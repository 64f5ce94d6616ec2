//! A single-line editable text buffer with a character-addressed cursor.
//!
//! The buffer is kept as a sequence of characters, never as raw bytes, so
//! that every cursor position is a character index. The cursor always sits
//! between `0` and the character count, kept there by clamping rather than
//! by reporting errors. Movement comes in two flavours: a single step, and
//! a word skip that jumps to the nearest alphanumeric/non-alphanumeric
//! boundary in the chosen direction.

use vstd::prelude::*;

verus! {

/// Whether a character counts as part of a word for word-skip movement.
///
/// This names the result of `char::is_alphanumeric`, which depends on the
/// character alone; the full Unicode classification is not restated here.
pub uninterp spec fn is_word_char(c: char) -> bool;

/// Relies on `char::is_alphanumeric`: true exactly for characters in the
/// Unicode alphabetic and numeric categories, a function of the character
/// alone.
#[verifier::external_body]
fn alphanumeric(c: char) -> (r: bool)
    ensures
        r == is_word_char(c),
{
    c.is_alphanumeric()
}

/// The two directions a text cursor can move in.
#[derive(Clone, Copy, Debug)]
pub enum CursorMoveDirection {
    Left,
    Right,
}

/// Result of scanning leftwards for a word boundary, starting the scan at
/// position `i` and walking down to `0`: one past the first non-word
/// character met, or `0` when every scanned character belongs to a word.
pub open spec fn word_skip_left_from(s: Seq<char>, i: int) -> int
    decreases i + 1,
{
    if i < 0 {
        0
    } else if !is_word_char(s[i]) {
        i + 1
    } else {
        word_skip_left_from(s, i - 1)
    }
}

/// Where a leftward word skip from `cursor` lands: the character directly
/// before the cursor is passed over, then the scan runs right-to-left and
/// stops one past the first non-word character, or at the start.
pub open spec fn word_skip_left(s: Seq<char>, cursor: int) -> int {
    word_skip_left_from(s, cursor - 2)
}

/// Result of scanning rightwards for a word boundary from position `j`:
/// the index of the first non-word character at or after `j`, or the end
/// of the buffer when every remaining character belongs to a word.
pub open spec fn word_skip_right_from(s: Seq<char>, j: int) -> int
    decreases s.len() - j,
{
    if j >= s.len() {
        s.len() as int
    } else if !is_word_char(s[j]) {
        j
    } else {
        word_skip_right_from(s, j + 1)
    }
}

/// Where a rightward word skip from `cursor` lands: the character under
/// the cursor is passed over, then the scan runs left-to-right and stops
/// on the first non-word character, or at the end of the buffer.
pub open spec fn word_skip_right(s: Seq<char>, cursor: int) -> int {
    word_skip_right_from(s, cursor + 1)
}

/// The cursor position that a move yields, before any mutation: a single
/// step saturates at the ends of the buffer, a word skip lands on the
/// nearest word boundary in the chosen direction.
pub open spec fn cursor_destination(
    s: Seq<char>,
    cursor: int,
    direction: CursorMoveDirection,
    skip: bool,
) -> int {
    match direction {
        CursorMoveDirection::Left => if skip {
            word_skip_left(s, cursor)
        } else if cursor <= 0 {
            0
        } else {
            cursor - 1
        },
        CursorMoveDirection::Right => if skip {
            word_skip_right(s, cursor)
        } else if cursor < s.len() {
            cursor + 1
        } else {
            s.len() as int
        },
    }
}

/// The number of bytes the UTF-8 encoding of one character takes.
pub open spec fn char_utf8_width(c: char) -> int {
    if (c as u32) < 0x80 {
        1
    } else if (c as u32) < 0x800 {
        2
    } else if (c as u32) < 0x10000 {
        3
    } else {
        4
    }
}

/// The byte offset of character position `k`: the total UTF-8 width of the
/// first `k` characters.
pub open spec fn byte_offset_of(s: Seq<char>, k: int) -> int
    decreases k,
{
    if k <= 0 {
        0
    } else {
        byte_offset_of(s, k - 1) + char_utf8_width(s[k - 1])
    }
}

/// A single line of editable text with a character-addressed cursor.
#[derive(Debug, Clone)]
pub struct TextField {
    pub title: String,
    pub text: Vec<char>,
    pub cursor: usize,
    pub focused: bool,
}

/// How one editor state follows from another by a full reset: the text is
/// empty, the cursor is at the start, and the display metadata is kept.
pub open spec fn is_reset_of(post: TextField, pre: TextField) -> bool {
    &&& post.text@ == Seq::<char>::empty()
    &&& post.cursor == 0
    &&& post.title@ == pre.title@
    &&& post.focused == pre.focused
}

/// How one editor state follows from another by inserting `c`: the
/// character lands at the cursor and the cursor advances one position.
pub open spec fn is_append_of(post: TextField, pre: TextField, c: char) -> bool {
    &&& post.text@ == pre.text@.insert(pre.cursor as int, c)
    &&& post.cursor == pre.cursor + 1
    &&& post.title@ == pre.title@
    &&& post.focused == pre.focused
}

/// How one editor state follows from another by backward deletion: at
/// cursor `0` nothing changes; otherwise the character before the cursor
/// goes away and the cursor steps left.
pub open spec fn is_remove_of(post: TextField, pre: TextField) -> bool {
    if pre.cursor == 0 {
        &&& post.text@ == pre.text@
        &&& post.cursor == pre.cursor
        &&& post.title@ == pre.title@
        &&& post.focused == pre.focused
    } else {
        &&& post.text@ == pre.text@.remove(pre.cursor - 1)
        &&& post.cursor == pre.cursor - 1
        &&& post.title@ == pre.title@
        &&& post.focused == pre.focused
    }
}

/// How one editor state follows from another by a cursor move: the text
/// stays put and the cursor lands on `cursor_destination`.
pub open spec fn is_move_of(
    post: TextField,
    pre: TextField,
    direction: CursorMoveDirection,
    skip: bool,
) -> bool {
    &&& post.text@ == pre.text@
    &&& post.cursor as int == cursor_destination(pre.text@, pre.cursor as int, direction, skip)
    &&& post.title@ == pre.title@
    &&& post.focused == pre.focused
}

impl TextField {
    /// The cursor is a valid character index: at most the character count.
    pub open spec fn wf(&self) -> bool {
        self.cursor <= self.text@.len()
    }

    pub fn new(title: &str) -> (r: TextField)
        ensures
            r.wf(),
            r.text@ == Seq::<char>::empty(),
            r.cursor == 0,
            r.focused == false,
            r.title@ == title@,
    {
        TextField { title: title.to_owned(), text: Vec::new(), cursor: 0, focused: false }
    }

    fn next_symbol_index(&self, direction: CursorMoveDirection) -> (r: usize)
        requires
            self.wf(),
        ensures
            r as int == cursor_destination(self.text@, self.cursor as int, direction, true),
            r <= self.text@.len(),
    {
        let n = self.text.len();
        match direction {
            CursorMoveDirection::Left => {
                let mut idx: usize = self.cursor;
                while idx >= 2
                    invariant
                        direction is Left,
                        idx <= self.cursor,
                        self.cursor <= self.text@.len(),
                        word_skip_left(self.text@, self.cursor as int) == word_skip_left_from(
                            self.text@,
                            idx as int - 2,
                        ),
                    decreases idx,
                {
                    if !alphanumeric(self.text[idx - 2]) {
                        return idx - 1;
                    }
                    idx = idx - 1;
                }
                0
            },
            CursorMoveDirection::Right => {
                if self.cursor >= n {
                    return n;
                }
                let mut j: usize = self.cursor + 1;
                while j < n
                    invariant
                        direction is Right,
                        self.cursor < j <= n,
                        n == self.text@.len(),
                        word_skip_right(self.text@, self.cursor as int) == word_skip_right_from(
                            self.text@,
                            j as int,
                        ),
                    decreases n - j,
                {
                    if !alphanumeric(self.text[j]) {
                        return j;
                    }
                    j = j + 1;
                }
                n
            },
        }
    }

    pub fn move_cursor(&mut self, direction: CursorMoveDirection, skip: bool)
        requires
            old(self).wf(),
        ensures
            final(self).wf(),
            is_move_of(*final(self), *old(self), direction, skip),
    {
        let n = self.text.len();
        let target: usize = match direction {
            CursorMoveDirection::Right => {
                if skip {
                    self.next_symbol_index(CursorMoveDirection::Right)
                } else if self.cursor < n {
                    self.cursor + 1
                } else {
                    n
                }
            },
            CursorMoveDirection::Left => {
                if skip {
                    self.next_symbol_index(CursorMoveDirection::Left)
                } else if self.cursor > 0 {
                    self.cursor - 1
                } else {
                    0
                }
            },
        };
        self.cursor = target;
    }

    pub fn focus(&mut self)
        ensures
            old(self).wf() ==> final(self).wf(),
            final(self).focused == true,
            final(self).text@ == old(self).text@,
            final(self).cursor == old(self).cursor,
            final(self).title@ == old(self).title@,
    {
        self.focused = true;
    }

    pub fn unfocus(&mut self)
        ensures
            old(self).wf() ==> final(self).wf(),
            final(self).focused == false,
            final(self).text@ == old(self).text@,
            final(self).cursor == old(self).cursor,
            final(self).title@ == old(self).title@,
    {
        self.focused = false;
    }

    pub fn reset(&mut self)
        ensures
            final(self).wf(),
            is_reset_of(*final(self), *old(self)),
    {
        self.cursor = 0;
        self.text.clear();
    }

    pub fn append(&mut self, c: char)
        requires
            old(self).wf(),
        ensures
            final(self).wf(),
            is_append_of(*final(self), *old(self), c),
    {
        let at = self.cursor;
        self.text.insert(at, c);
        self.move_cursor(CursorMoveDirection::Right, false);
    }

    pub fn remove(&mut self)
        requires
            old(self).wf(),
        ensures
            final(self).wf(),
            is_remove_of(*final(self), *old(self)),
    {
        if self.cursor == 0 {
            return;
        }
        let at = self.cursor - 1;
        self.text.remove(at);
        self.cursor = at;
    }

    /// The byte offset of the cursor in the UTF-8 encoding of the text,
    /// recomputed from the characters on every call.
    pub fn index(&self) -> (r: usize)
        requires
            self.wf(),
            self.text@.len() * 4 <= usize::MAX,
        ensures
            r as int == byte_offset_of(self.text@, self.cursor as int),
    {
        let mut off: usize = 0;
        let mut k: usize = 0;
        while k < self.cursor
            invariant
                k <= self.cursor,
                self.cursor <= self.text@.len(),
                self.text@.len() * 4 <= usize::MAX,
                off as int == byte_offset_of(self.text@, k as int),
                off <= 4 * k,
            decreases self.cursor - k,
        {
            let c = self.text[k];
            let u = c as u32;
            let w: usize = if u < 0x80 {
                1
            } else if u < 0x800 {
                2
            } else if u < 0x10000 {
                3
            } else {
                4
            };
            off = off + w;
            k = k + 1;
        }
        off
    }
}

/// Whether two editor states agree on what editing observes: the text and
/// the cursor position.
pub open spec fn same_edit_state(a: TextField, b: TextField) -> bool {
    a.text@ == b.text@ && a.cursor == b.cursor
}

/// Resetting an editor twice leaves exactly the state that one reset leaves:
/// empty text, cursor at the start, display metadata kept.
pub proof fn lemma_reset_idempotent(a: TextField, b: TextField, c: TextField)
    requires
        is_reset_of(b, a),
        is_reset_of(c, b),
    ensures
        c.text@ == b.text@,
        c.cursor == b.cursor,
        c.title@ == b.title@,
        c.focused == b.focused,
{
}

/// Backward deletion on an empty buffer changes neither text nor cursor.
pub proof fn lemma_remove_on_empty_is_noop(pre: TextField, post: TextField)
    requires
        pre.wf(),
        pre.text@.len() == 0,
        is_remove_of(post, pre),
    ensures
        post.text@ == pre.text@,
        post.cursor == pre.cursor,
{
}

/// Removing the character just inserted at a valid cursor position gives
/// the text that stood there before.
pub proof fn lemma_insert_then_remove(s: Seq<char>, k: int, c: char)
    requires
        0 <= k <= s.len(),
    ensures
        s.insert(k, c).remove(k) == s,
{
    s.insert_ensures(k, c);
    s.insert(k, c).remove_ensures(k);
    assert(s.insert(k, c).remove(k) =~= s);
}

/// Along a chain of insertions that starts well formed, every intermediate
/// editor state is well formed.
pub proof fn lemma_append_chain_wf(fwd: Seq<TextField>, cs: Seq<char>, k: int)
    requires
        fwd.len() == cs.len() + 1,
        fwd[0].wf(),
        forall|i: int| 1 <= i <= cs.len() ==> is_append_of(#[trigger] fwd[i], fwd[i - 1], cs[i - 1]),
        0 <= k <= cs.len(),
    ensures
        fwd[k].wf(),
    decreases k,
{
    if k > 0 {
        lemma_append_chain_wf(fwd, cs, k - 1);
        assert(is_append_of(fwd[k], fwd[k - 1], cs[k - 1]));
        fwd[k - 1].text@.insert_ensures(fwd[k - 1].cursor as int, cs[k - 1]);
    }
}

proof fn lemma_append_run_coupling_upto(trace: Seq<TextField>, cs: Seq<char>, k: int)
    requires
        trace.len() == cs.len() + 1,
        trace[0].text@.len() == 0,
        trace[0].cursor == 0,
        forall|i: int|
            1 <= i <= cs.len() ==> is_append_of(#[trigger] trace[i], trace[i - 1], cs[i - 1]),
        0 <= k <= cs.len(),
    ensures
        trace[k].text@.len() == k,
        trace[k].cursor == k,
    decreases k,
{
    if k > 0 {
        lemma_append_run_coupling_upto(trace, cs, k - 1);
        assert(is_append_of(trace[k], trace[k - 1], cs[k - 1]));
        trace[k - 1].text@.insert_ensures(trace[k - 1].cursor as int, cs[k - 1]);
    }
}

/// Inserting `n` characters one after another into an empty editor leaves
/// text of `n` characters with the cursor at position `n`.
pub proof fn lemma_append_run_coupling(trace: Seq<TextField>, cs: Seq<char>)
    requires
        trace.len() == cs.len() + 1,
        trace[0].text@.len() == 0,
        trace[0].cursor == 0,
        forall|i: int|
            1 <= i <= cs.len() ==> is_append_of(#[trigger] trace[i], trace[i - 1], cs[i - 1]),
    ensures
        trace[cs.len() as int].text@.len() == cs.len(),
        trace[cs.len() as int].cursor == cs.len(),
{
    lemma_append_run_coupling_upto(trace, cs, cs.len() as int);
}

proof fn lemma_round_trip_upto(fwd: Seq<TextField>, back: Seq<TextField>, cs: Seq<char>, k: int)
    requires
        fwd.len() == cs.len() + 1,
        back.len() == cs.len() + 1,
        fwd[0].wf(),
        forall|i: int| 1 <= i <= cs.len() ==> is_append_of(#[trigger] fwd[i], fwd[i - 1], cs[i - 1]),
        same_edit_state(back[0], fwd[cs.len() as int]),
        forall|i: int| 1 <= i <= cs.len() ==> is_remove_of(#[trigger] back[i], back[i - 1]),
        0 <= k <= cs.len(),
    ensures
        same_edit_state(back[k], fwd[cs.len() - k]),
    decreases k,
{
    let n = cs.len() as int;
    if k > 0 {
        lemma_round_trip_upto(fwd, back, cs, k - 1);
        lemma_append_chain_wf(fwd, cs, n - k);
        assert(is_append_of(fwd[n - k + 1], fwd[n - k], cs[n - k]));
        assert(is_remove_of(back[k], back[k - 1]));
        lemma_insert_then_remove(fwd[n - k].text@, fwd[n - k].cursor as int, cs[n - k]);
    }
}

/// A run of insertions followed by the same number of backward deletions
/// restores the text and cursor that the run started from.
pub proof fn lemma_append_remove_round_trip(fwd: Seq<TextField>, back: Seq<TextField>, cs: Seq<char>)
    requires
        fwd.len() == cs.len() + 1,
        back.len() == cs.len() + 1,
        fwd[0].wf(),
        forall|i: int| 1 <= i <= cs.len() ==> is_append_of(#[trigger] fwd[i], fwd[i - 1], cs[i - 1]),
        same_edit_state(back[0], fwd[cs.len() as int]),
        forall|i: int| 1 <= i <= cs.len() ==> is_remove_of(#[trigger] back[i], back[i - 1]),
    ensures
        same_edit_state(back[cs.len() as int], fwd[0]),
{
    lemma_round_trip_upto(fwd, back, cs, cs.len() as int);
}

} // verus!
