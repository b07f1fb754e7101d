//! An editable text with a cursor, as the prompt and the settings editor
//! use it. The cursor counts characters and never leaves the text.

use vstd::prelude::*;

verus! {

/// The mathematical content of a [`TextBuffer`]: its characters and the
/// offset of the cursor, counted in characters from the start.
pub struct TextBufferView {
    pub text: Seq<char>,
    pub cursor: nat,
}

/// One editing step on a text buffer.
#[derive(Debug, Clone, Copy, PartialEq, Eq, Structural)]
pub enum EditOp {
    /// Put a character in at the cursor and step over it.
    Insert(char),
    /// Remove the character before the cursor.
    Backspace,
    /// Remove the character at the cursor.
    Delete,
    /// Remove what stands between the start of the line and the cursor.
    KillToLineStart,
    Left,
    Right,
    Home,
    End,
    /// Remove everything.
    Clear,
}

impl TextBufferView {
    /// The cursor stands within the text or just behind it.
    pub open spec fn wf(self) -> bool {
        self.cursor <= self.text.len()
    }

    pub open spec fn empty() -> TextBufferView {
        TextBufferView { text: Seq::empty(), cursor: 0 }
    }

    /// The buffer that holds `text` with the cursor behind its last character.
    pub open spec fn at_end(text: Seq<char>) -> TextBufferView {
        TextBufferView { text, cursor: text.len() }
    }

    pub open spec fn insert(self, c: char) -> TextBufferView {
        TextBufferView { text: self.text.insert(self.cursor as int, c), cursor: self.cursor + 1 }
    }

    /// At the start of the text there is nothing to remove.
    pub open spec fn backspace(self) -> TextBufferView {
        if self.cursor > 0 {
            TextBufferView {
                text: self.text.remove(self.cursor - 1),
                cursor: (self.cursor - 1) as nat,
            }
        } else {
            self
        }
    }

    /// Behind the last character there is nothing to remove.
    pub open spec fn delete(self) -> TextBufferView {
        if self.cursor < self.text.len() {
            TextBufferView { text: self.text.remove(self.cursor as int), ..self }
        } else {
            self
        }
    }

    pub open spec fn left(self) -> TextBufferView {
        if self.cursor > 0 {
            TextBufferView { cursor: (self.cursor - 1) as nat, ..self }
        } else {
            self
        }
    }

    pub open spec fn right(self) -> TextBufferView {
        if self.cursor < self.text.len() {
            TextBufferView { cursor: self.cursor + 1, ..self }
        } else {
            self
        }
    }

    pub open spec fn home(self) -> TextBufferView {
        TextBufferView { cursor: 0, ..self }
    }

    pub open spec fn end(self) -> TextBufferView {
        TextBufferView { cursor: self.text.len(), ..self }
    }

    /// Whether `start` is where the line that holds the cursor begins: no
    /// newline stands between `start` and the cursor, and `start` is the
    /// start of the text or follows a newline.
    pub open spec fn is_line_start(self, start: nat) -> bool {
        &&& start <= self.cursor
        &&& forall|i: int| start <= i < self.cursor ==> self.text[i] != '\n'
        &&& start == 0 || self.text[start - 1] == '\n'
    }

    /// The offset at which the line that holds the cursor begins.
    pub open spec fn line_start(self) -> nat {
        choose|start: nat| self.is_line_start(start)
    }

    pub open spec fn kill_to_line_start(self) -> TextBufferView {
        TextBufferView {
            text: self.text.subrange(0, self.line_start() as int) + self.text.subrange(
                self.cursor as int,
                self.text.len() as int,
            ),
            cursor: self.line_start(),
        }
    }

    pub open spec fn apply(self, op: EditOp) -> TextBufferView {
        match op {
            EditOp::Insert(c) => self.insert(c),
            EditOp::Backspace => self.backspace(),
            EditOp::Delete => self.delete(),
            EditOp::KillToLineStart => self.kill_to_line_start(),
            EditOp::Left => self.left(),
            EditOp::Right => self.right(),
            EditOp::Home => self.home(),
            EditOp::End => self.end(),
            EditOp::Clear => Self::empty(),
        }
    }

    /// The buffer after the steps of `ops`, first to last.
    pub open spec fn apply_all(self, ops: Seq<EditOp>) -> TextBufferView
        decreases ops.len(),
    {
        if ops.len() == 0 {
            self
        } else {
            self.apply(ops[0]).apply_all(ops.drop_first())
        }
    }

    /// A buffer has exactly one line start.
    pub proof fn lemma_line_start_unique(self, a: nat, b: nat)
        requires
            self.wf(),
            self.is_line_start(a),
            self.is_line_start(b),
        ensures
            a == b,
    {
        if a < b {
            assert(self.text[b - 1] == '\n');
        } else if b < a {
            assert(self.text[a - 1] == '\n');
        }
    }

    /// The line start that `line_start` picks is one, given that one exists.
    pub proof fn lemma_line_start(self, start: nat)
        requires
            self.wf(),
            self.is_line_start(start),
        ensures
            self.line_start() == start,
    {
        self.lemma_line_start_unique(start, self.line_start());
    }

    /// Every buffer has a line start.
    pub proof fn lemma_line_start_exists(self)
        requires
            self.wf(),
        ensures
            self.is_line_start(self.line_start()),
        decreases self.cursor,
    {
        if self.cursor == 0 {
            assert(self.is_line_start(0));
        } else if self.text[self.cursor - 1] == '\n' {
            assert(self.is_line_start(self.cursor));
        } else {
            let before = TextBufferView { cursor: (self.cursor - 1) as nat, ..self };
            before.lemma_line_start_exists();
            assert(self.is_line_start(before.line_start()));
        }
    }

    /// One editing step keeps the cursor within the text.
    pub proof fn lemma_apply_wf(self, op: EditOp)
        requires
            self.wf(),
        ensures
            self.apply(op).wf(),
    {
        if op is KillToLineStart {
            self.lemma_line_start_exists();
        }
    }

    /// After any sequence of insertions, deletions and cursor movements the
    /// cursor stands within `[0, length]`.
    pub proof fn lemma_cursor_stays_in_range(self, ops: Seq<EditOp>)
        requires
            self.wf(),
        ensures
            self.apply_all(ops).wf(),
            0 <= self.apply_all(ops).cursor <= self.apply_all(ops).text.len(),
        decreases ops.len(),
    {
        if ops.len() > 0 {
            self.lemma_apply_wf(ops[0]);
            self.apply(ops[0]).lemma_cursor_stays_in_range(ops.drop_first());
        }
    }

    /// Clearing an empty buffer changes nothing: clearing twice is clearing once.
    pub proof fn lemma_clear_idempotent(self)
        ensures
            self.apply(EditOp::Clear).apply(EditOp::Clear) == self.apply(EditOp::Clear),
    {
    }
}

/// An editable text with a cursor.
#[derive(Debug)]
pub struct TextBuffer {
    chars: Vec<char>,
    cursor: usize,
}

impl View for TextBuffer {
    type V = TextBufferView;

    closed spec fn view(&self) -> TextBufferView {
        TextBufferView { text: self.chars@, cursor: self.cursor as nat }
    }
}

impl Clone for TextBuffer {
    fn clone(&self) -> (r: Self)
        ensures
            r@ == self@,
    {
        TextBuffer { chars: self.chars.clone(), cursor: self.cursor }
    }
}

impl TextBuffer {
    /// The invariant of a buffer: the cursor stands within the text.
    pub open spec fn wf(&self) -> bool {
        self@.wf()
    }

    /// The empty buffer.
    pub fn new() -> (r: Self)
        ensures
            r.wf(),
            r@ == TextBufferView::empty(),
    {
        TextBuffer { chars: Vec::new(), cursor: 0 }
    }

    /// The buffer that holds `text`, with the cursor behind its last character.
    pub fn from_str(text: &str) -> (r: Self)
        ensures
            r.wf(),
            r@ == TextBufferView::at_end(text@),
    {
        let chars = crate::text::chars_of(text);
        let cursor = chars.len();
        TextBuffer { chars, cursor }
    }

    /// The characters, in order.
    pub fn chars(&self) -> (r: &Vec<char>)
        ensures
            r@ == self@.text,
    {
        &self.chars
    }

    /// The text as a string.
    pub fn text(&self) -> (r: String)
        ensures
            r@ == self@.text,
    {
        crate::text::string_of(&self.chars)
    }

    /// The offset of the cursor, in characters from the start.
    pub fn cursor(&self) -> (r: usize)
        ensures
            r == self@.cursor,
    {
        self.cursor
    }

    /// The number of characters.
    pub fn len(&self) -> (r: usize)
        ensures
            r == self@.text.len(),
    {
        self.chars.len()
    }

    pub fn is_empty(&self) -> (r: bool)
        ensures
            r == (self@.text.len() == 0),
    {
        self.chars.len() == 0
    }

    /// Whether the text begins with a slash.
    pub fn starts_with_slash(&self) -> (r: bool)
        ensures
            r == crate::text::starts_with_slash(self@.text),
    {
        crate::text::begins_with_slash(&self.chars)
    }

    /// Puts `c` in at the cursor and moves the cursor behind it.
    pub fn insert(&mut self, c: char)
        requires
            old(self).wf(),
        ensures
            final(self).wf(),
            final(self)@ == old(self)@.insert(c),
    {
        self.chars.insert(self.cursor, c);
        assert(self.chars.len() == old(self)@.text.len() + 1);
        self.cursor = self.cursor + 1;
    }

    /// Removes the character before the cursor, if there is one, and says
    /// whether it removed one.
    pub fn backspace(&mut self) -> (removed: bool)
        requires
            old(self).wf(),
        ensures
            final(self).wf(),
            final(self)@ == old(self)@.backspace(),
            removed == (old(self)@.cursor > 0),
    {
        if self.cursor > 0 {
            self.cursor = self.cursor - 1;
            self.chars.remove(self.cursor);
            true
        } else {
            false
        }
    }

    /// Removes the character at the cursor, if there is one, and says
    /// whether it removed one.
    pub fn delete(&mut self) -> (removed: bool)
        requires
            old(self).wf(),
        ensures
            final(self).wf(),
            final(self)@ == old(self)@.delete(),
            removed == (old(self)@.cursor < old(self)@.text.len()),
    {
        if self.cursor < self.chars.len() {
            self.chars.remove(self.cursor);
            true
        } else {
            false
        }
    }

    pub fn move_left(&mut self)
        requires
            old(self).wf(),
        ensures
            final(self).wf(),
            final(self)@ == old(self)@.left(),
    {
        if self.cursor > 0 {
            self.cursor = self.cursor - 1;
        }
    }

    pub fn move_right(&mut self)
        requires
            old(self).wf(),
        ensures
            final(self).wf(),
            final(self)@ == old(self)@.right(),
    {
        if self.cursor < self.chars.len() {
            self.cursor = self.cursor + 1;
        }
    }

    pub fn move_home(&mut self)
        ensures
            final(self).wf(),
            final(self)@ == old(self)@.home(),
    {
        self.cursor = 0;
    }

    pub fn move_end(&mut self)
        ensures
            final(self).wf(),
            final(self)@ == old(self)@.end(),
    {
        self.cursor = self.chars.len();
    }

    /// Removes everything and puts the cursor at the start.
    pub fn clear(&mut self)
        ensures
            final(self).wf(),
            final(self)@ == TextBufferView::empty(),
    {
        self.cursor = 0;
        self.chars.clear();
    }

    /// Replaces the content by `text` and puts the cursor behind it.
    pub fn set_text(&mut self, text: &str)
        ensures
            final(self).wf(),
            final(self)@ == TextBufferView::at_end(text@),
    {
        self.chars = crate::text::chars_of(text);
        self.cursor = self.chars.len();
    }

    /// The offset at which the line that holds the cursor begins: behind the
    /// last newline before the cursor, or 0 where there is none.
    pub fn line_start(&self) -> (start: usize)
        requires
            self.wf(),
        ensures
            start == self@.line_start(),
            self@.is_line_start(start as nat),
    {
        let mut start: usize = self.cursor;
        while start > 0 && self.chars[start - 1] != '\n'
            invariant
                start <= self.cursor <= self.chars@.len(),
                forall|i: int| start <= i < self.cursor ==> self.chars@[i] != '\n',
            decreases start,
        {
            start -= 1;
        }
        proof {
            assert(self@.is_line_start(start as nat));
            self@.lemma_line_start(start as nat);
        }
        start
    }

    /// Removes what stands between the start of the cursor's line and the
    /// cursor, and puts the cursor at that start.
    pub fn kill_to_line_start(&mut self)
        requires
            old(self).wf(),
        ensures
            final(self).wf(),
            final(self)@ == old(self)@.kill_to_line_start(),
    {
        let start = self.line_start();
        let mut tail = self.chars.split_off(self.cursor);
        self.cursor = start;
        self.chars.truncate(start);
        self.chars.append(&mut tail);
        assert(self.chars@ =~= old(self)@.text.subrange(0, start as int) + old(self)@.text.subrange(
            old(self)@.cursor as int,
            old(self)@.text.len() as int,
        ));
    }

    /// Performs one editing step.
    pub fn apply(&mut self, op: EditOp)
        requires
            old(self).wf(),
        ensures
            final(self).wf(),
            final(self)@ == old(self)@.apply(op),
    {
        match op {
            EditOp::Insert(c) => self.insert(c),
            EditOp::Backspace => {
                self.backspace();
            },
            EditOp::Delete => {
                self.delete();
            },
            EditOp::KillToLineStart => self.kill_to_line_start(),
            EditOp::Left => self.move_left(),
            EditOp::Right => self.move_right(),
            EditOp::Home => self.move_home(),
            EditOp::End => self.move_end(),
            EditOp::Clear => self.clear(),
        }
    }
}

} // verus!
