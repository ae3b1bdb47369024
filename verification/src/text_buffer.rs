//! A text buffer: a rope of characters, a cursor, the text as last saved,
//! and hashes that tell whether the text changed since then.
use vstd::prelude::*;
use ropey::Rope;
use std::hash::{DefaultHasher, Hasher};
use vstd::std_specs::hash::DefaultHasherAdditionalSpecFns;
use vstd::utf8::encode_utf8;
use crate::rope_text::{
    lemma_line_content_len, lemma_line_of_monotone, lemma_line_start, lemma_line_start_monotone, lemma_position_in_line,
    line_content_len, line_count, line_of, line_start, rope_char, rope_char_to_line,
    rope_chunk_count, rope_clone, rope_from_string, rope_insert_char, rope_len_bytes,
    rope_len_chars, rope_len_lines, rope_line_len_chars, rope_line_to_char, rope_new,
    rope_remove, rope_text, rope_to_string,
};
use crate::server::events::EditMode;

verus! {

/// The hash a buffer keeps of a text: its UTF-8 bytes written once into a
/// fresh `DefaultHasher`.
pub open spec fn text_hash(t: Seq<char>) -> u64 {
    DefaultHasher::spec_finish(seq![encode_utf8(t)])
}

/// The state of a `TextBuffer` as its users see it.
pub struct TextBufferState {
    pub content: Seq<char>,
    pub cursor: nat,
    pub saved_content: Seq<char>,
    pub saved_cursor: nat,
    pub content_hash: u64,
    pub saved_hash: u64,
    pub mode: EditMode,
}

/// A buffer holding `text` that counts as saved, with the cursor at `cursor`.
pub open spec fn fresh_state(text: Seq<char>, cursor: nat) -> TextBufferState {
    TextBufferState {
        content: text,
        cursor,
        saved_content: text,
        saved_cursor: cursor,
        content_hash: text_hash(text),
        saved_hash: text_hash(text),
        mode: EditMode::Normal,
    }
}

/// Whether the text differs from the saved one, as far as the hashes tell.
pub open spec fn modified(b: TextBufferState) -> bool {
    b.content_hash != b.saved_hash
}

/// `ch` typed at the cursor, which moves past it.
pub open spec fn after_insert_char(b: TextBufferState, ch: char) -> TextBufferState {
    let content = b.content.insert(b.cursor as int, ch);
    TextBufferState { content, cursor: b.cursor + 1, content_hash: text_hash(content), ..b }
}

/// The character before the cursor removed (backspace); nothing happens at
/// the start of the text.
pub open spec fn after_delete_char(b: TextBufferState) -> TextBufferState {
    if b.cursor > 0 {
        let content = b.content.remove(b.cursor - 1);
        TextBufferState {
            content,
            cursor: (b.cursor - 1) as nat,
            content_hash: text_hash(content),
            ..b
        }
    } else {
        b
    }
}

/// `ch` put at `position`; a cursor at or after `position` moves right.
pub open spec fn after_insert_at(b: TextBufferState, position: nat, ch: char) -> TextBufferState {
    TextBufferState {
        content: b.content.insert(position as int, ch),
        cursor: if position <= b.cursor {
            b.cursor + 1
        } else {
            b.cursor
        },
        ..b
    }
}

/// The character at `position` removed; a cursor after it moves left.
pub open spec fn after_delete_at(b: TextBufferState, position: nat) -> TextBufferState {
    TextBufferState {
        content: b.content.remove(position as int),
        cursor: if position < b.cursor {
            (b.cursor - 1) as nat
        } else {
            b.cursor
        },
        ..b
    }
}

/// The cursor one character to the left, if it is not at the start.
pub open spec fn after_move_left(b: TextBufferState) -> TextBufferState {
    TextBufferState {
        cursor: if b.cursor > 0 {
            (b.cursor - 1) as nat
        } else {
            b.cursor
        },
        ..b
    }
}

/// The cursor one character to the right, if it is not at the end.
pub open spec fn after_move_right(b: TextBufferState) -> TextBufferState {
    TextBufferState {
        cursor: if b.cursor < b.content.len() {
            b.cursor + 1
        } else {
            b.cursor
        },
        ..b
    }
}

/// The cursor's column within its line.
pub open spec fn column(s: Seq<char>, c: nat) -> int {
    c - line_start(s, line_of(s, c as int))
}

/// The position on line `target` at column `col`, or at the end of that
/// line's text (before its line break) when the line is shorter.
pub open spec fn position_on_line(s: Seq<char>, target: nat, col: int) -> nat {
    (line_start(s, target) + if col <= line_content_len(s, target) {
        col
    } else {
        line_content_len(s, target)
    }) as nat
}

/// The cursor moved to the line above, keeping its column where that line
/// is long enough; nothing happens on the first line.
pub open spec fn after_move_up(b: TextBufferState) -> TextBufferState {
    let l = line_of(b.content, b.cursor as int);
    if l > 0 {
        TextBufferState {
            cursor: position_on_line(b.content, (l - 1) as nat, column(b.content, b.cursor)),
            ..b
        }
    } else {
        b
    }
}

/// The cursor moved to the line below, keeping its column where that line
/// is long enough; nothing happens on the last line.
pub open spec fn after_move_down(b: TextBufferState) -> TextBufferState {
    let l = line_of(b.content, b.cursor as int);
    if l + 1 < line_count(b.content) {
        TextBufferState {
            cursor: position_on_line(b.content, l + 1, column(b.content, b.cursor)),
            ..b
        }
    } else {
        b
    }
}

/// The text recorded as saved.
pub open spec fn after_mark_saved(b: TextBufferState) -> TextBufferState {
    TextBufferState {
        saved_content: b.content,
        saved_cursor: b.cursor,
        content_hash: text_hash(b.content),
        saved_hash: text_hash(b.content),
        ..b
    }
}

/// The saved text and cursor restored.
pub open spec fn after_reset(b: TextBufferState) -> TextBufferState {
    TextBufferState {
        content: b.saved_content,
        cursor: b.saved_cursor,
        content_hash: text_hash(b.saved_content),
        ..b
    }
}

/// The counts that describe how a buffer's rope holds its text.
pub struct RopeStatistics {
    pub chars: usize,
    pub bytes: usize,
    pub lines: usize,
    pub chunks: usize,
    pub avg_chunk_size: usize,
}

/// A text buffer.
pub struct TextBuffer {
    content: Rope,
    original_content: Rope,
    original_content_hash: u64,
    original_cursor_position: usize,
    cursor_position: usize,
    content_hash: u64,
    edit_mode: EditMode,
}

impl View for TextBuffer {
    type V = TextBufferState;

    closed spec fn view(&self) -> TextBufferState {
        TextBufferState {
            content: rope_text(self.content),
            cursor: self.cursor_position as nat,
            saved_content: rope_text(self.original_content),
            saved_cursor: self.original_cursor_position as nat,
            content_hash: self.content_hash,
            saved_hash: self.original_content_hash,
            mode: self.edit_mode,
        }
    }
}

/// The hash of the text of `rope` (see `text_hash`).
fn hash_rope(rope: &Rope) -> (h: u64)
    ensures
        h == text_hash(rope_text(*rope)),
{
    let text = rope_to_string(rope);
    let mut hasher = DefaultHasher::new();
    hasher.write(text.as_str().as_bytes());
    hasher.finish()
}

impl TextBuffer {
    /// The buffer's invariant: both cursors lie within their texts and the
    /// saved hash is the hash of the saved text.
    pub closed spec fn wf(&self) -> bool {
        &&& self.cursor_position <= rope_text(self.content).len()
        &&& self.original_cursor_position <= rope_text(self.original_content).len()
        &&& self.original_content_hash == text_hash(rope_text(self.original_content))
    }

    /// The saved hash of a well-formed buffer is the hash of its saved text.
    pub proof fn lemma_saved_hash(&self)
        requires
            self.wf(),
        ensures
            self@.saved_hash == text_hash(self@.saved_content),
    {
    }

    /// The cursor of a well-formed buffer lies within its text.
    pub proof fn lemma_cursor_in_text(&self)
        requires
            self.wf(),
        ensures
            self@.cursor <= self@.content.len(),
    {
    }

    /// An empty buffer in normal mode.
    pub fn new() -> (b: TextBuffer)
        ensures
            b.wf(),
            b@ == fresh_state(Seq::empty(), 0),
    {
        let content = rope_new();
        let content_hash = hash_rope(&content);
        TextBuffer {
            content: rope_clone(&content),
            original_content: content,
            original_content_hash: content_hash,
            original_cursor_position: 0,
            cursor_position: 0,
            content_hash,
            edit_mode: EditMode::Normal,
        }
    }

    /// A buffer holding `string`, with the cursor at its end.
    pub fn from_string(string: String) -> (b: TextBuffer)
        ensures
            b.wf(),
            b@ == fresh_state(string@, string@.len()),
    {
        let content = rope_from_string(string);
        let cursor_position = rope_len_chars(&content);
        let content_hash = hash_rope(&content);
        TextBuffer {
            content: rope_clone(&content),
            cursor_position,
            original_cursor_position: cursor_position,
            original_content: content,
            original_content_hash: content_hash,
            content_hash,
            edit_mode: EditMode::Normal,
        }
    }

    /// The text.
    pub fn get_content(&self) -> (s: String)
        ensures
            s@ == self@.content,
    {
        rope_to_string(&self.content)
    }

    /// The rope that holds the text.
    pub fn get_content_rope(&self) -> (r: &Rope)
        ensures
            rope_text(*r) == self@.content,
    {
        &self.content
    }

    /// The cursor's character index.
    pub fn get_cursor_position(&self) -> (p: usize)
        ensures
            p == self@.cursor,
    {
        self.cursor_position
    }

    /// Moves the cursor to `position`; a position past the end of the text
    /// is refused and leaves the buffer unchanged.
    pub fn set_cursor_position(&mut self, position: usize) -> (r: Result<(), String>)
        requires
            old(self).wf(),
        ensures
            final(self).wf(),
            r is Ok <==> position <= old(self)@.content.len(),
            r is Ok ==> final(self)@ == (TextBufferState { cursor: position as nat, ..old(self)@ }),
            r is Err ==> final(self)@ == old(self)@,
    {
        if position > rope_len_chars(&self.content) {
            Err("Attempting to set cursor position out of bounds".to_owned())
        } else {
            self.cursor_position = position;
            Ok(())
        }
    }

    /// Puts `ch` at `position` (see `after_insert_at`).
    pub fn insert_char_at_position(&mut self, position: usize, ch: char)
        requires
            old(self).wf(),
            position <= old(self)@.content.len(),
        ensures
            final(self).wf(),
            final(self)@ == after_insert_at(old(self)@, position as nat, ch),
    {
        rope_insert_char(&mut self.content, position, ch);
        if position <= self.cursor_position {
            self.move_cursor_right();
        }
    }

    /// Removes and returns the character at `position` (see
    /// `after_delete_at`); a position past the last character is refused and
    /// leaves the buffer unchanged.
    pub fn delete_char_at_position(&mut self, position: usize) -> (r: Result<char, String>)
        requires
            old(self).wf(),
        ensures
            final(self).wf(),
            r is Ok <==> position < old(self)@.content.len(),
            r is Ok ==> r == Ok::<char, String>(old(self)@.content[position as int])
                && final(self)@ == after_delete_at(old(self)@, position as nat),
            r is Err ==> final(self)@ == old(self)@,
    {
        if position >= rope_len_chars(&self.content) {
            return Err("Position out of bounds".to_owned());
        }
        let deleted_char = rope_char(&self.content, position);
        let ghost before = rope_text(self.content);
        rope_remove(&mut self.content, position, position + 1);
        assert(rope_text(self.content) =~= before.remove(position as int));
        if position < self.cursor_position {
            self.cursor_position -= 1;
        }
        Ok(deleted_char)
    }

    /// Types `ch` at the cursor (see `after_insert_char`).
    pub fn insert_char(&mut self, ch: char)
        requires
            old(self).wf(),
        ensures
            final(self).wf(),
            final(self)@ == after_insert_char(old(self)@, ch),
    {
        rope_insert_char(&mut self.content, self.cursor_position, ch);
        let len = rope_len_chars(&self.content);
        assert(self.cursor_position < len);
        self.cursor_position += 1;
        self.update_content_hash();
    }

    /// Removes the character before the cursor (see `after_delete_char`).
    pub fn delete_char(&mut self)
        requires
            old(self).wf(),
        ensures
            final(self).wf(),
            final(self)@ == after_delete_char(old(self)@),
    {
        if self.cursor_position > 0 {
            self.cursor_position -= 1;
            let ghost before = rope_text(self.content);
            rope_remove(&mut self.content, self.cursor_position, self.cursor_position + 1);
            assert(rope_text(self.content) =~= before.remove(self.cursor_position as int));
            self.update_content_hash();
        }
    }

    /// Moves the cursor one character left (see `after_move_left`).
    pub fn move_cursor_left(&mut self)
        requires
            old(self).wf(),
        ensures
            final(self).wf(),
            final(self)@ == after_move_left(old(self)@),
    {
        if self.cursor_position > 0 {
            self.cursor_position -= 1;
        }
    }

    /// Moves the cursor one character right (see `after_move_right`).
    pub fn move_cursor_right(&mut self)
        requires
            old(self).wf(),
        ensures
            final(self).wf(),
            final(self)@ == after_move_right(old(self)@),
    {
        if self.cursor_position < rope_len_chars(&self.content) {
            self.cursor_position += 1;
        }
    }

    /// The length of line `line` without its line break.
    fn line_content_length(&self, line: usize) -> (n: usize)
        requires
            line < line_count(rope_text(self.content)),
        ensures
            n == line_content_len(rope_text(self.content), line as nat),
    {
        let ghost s = rope_text(self.content);
        proof {
            lemma_line_content_len(s, line as nat);
            lemma_line_start(s, line as nat);
            lemma_line_start(s, (line + 1) as nat);
            lemma_line_start_monotone(s, line as nat, (line + 1) as nat);
        }
        let lines = rope_len_lines(&self.content);
        let len = rope_line_len_chars(&self.content, line);
        if line + 1 >= lines {
            return len;
        }
        let start = rope_line_to_char(&self.content, line);
        let _text_len = rope_len_chars(&self.content);
        let next = start + len;
        assert(next == line_start(s, (line + 1) as nat));
        if len >= 2 && rope_char(&self.content, next - 1) == '\n' && rope_char(
            &self.content,
            next - 2,
        ) == '\r' {
            len - 2
        } else {
            len - 1
        }
    }

    /// Moves the cursor to the line above (see `after_move_up`).
    pub fn move_cursor_up(&mut self)
        requires
            old(self).wf(),
        ensures
            final(self).wf(),
            final(self)@ == after_move_up(old(self)@),
    {
        let ghost s = rope_text(self.content);
        let line_idx = rope_char_to_line(&self.content, self.cursor_position);
        proof {
            lemma_position_in_line(s, self.cursor_position as int);
        }
        if line_idx > 0 {
            let current_line_start = rope_line_to_char(&self.content, line_idx);
            let col_in_line = self.cursor_position - current_line_start;
            let prev_line_start = rope_line_to_char(&self.content, line_idx - 1);
            let prev_line_len = self.line_content_length(line_idx - 1);
            proof {
                lemma_line_content_len(s, (line_idx - 1) as nat);
            }
            self.cursor_position = prev_line_start + if col_in_line <= prev_line_len {
                col_in_line
            } else {
                prev_line_len
            };
        }
    }

    /// Replaces the content hash by the hash of the current text.
    fn update_content_hash(&mut self)
        requires
            old(self).wf(),
        ensures
            final(self).wf(),
            final(self)@ == (TextBufferState {
                content_hash: text_hash(old(self)@.content),
                ..old(self)@
            }),
    {
        self.content_hash = hash_rope(&self.content);
    }

    /// Moves the cursor to the line below (see `after_move_down`).
    pub fn move_cursor_down(&mut self)
        requires
            old(self).wf(),
        ensures
            final(self).wf(),
            final(self)@ == after_move_down(old(self)@),
    {
        let ghost s = rope_text(self.content);
        let line_idx = rope_char_to_line(&self.content, self.cursor_position);
        proof {
            lemma_position_in_line(s, self.cursor_position as int);
        }
        let _text_len = rope_len_chars(&self.content);
        if line_idx < rope_len_lines(&self.content) - 1 {
            let current_line_start = rope_line_to_char(&self.content, line_idx);
            let col_in_line = self.cursor_position - current_line_start;
            let next_line_start = rope_line_to_char(&self.content, line_idx + 1);
            let next_line_len = self.line_content_length(line_idx + 1);
            proof {
                lemma_line_content_len(s, (line_idx + 1) as nat);
            }
            self.cursor_position = next_line_start + if col_in_line <= next_line_len {
                col_in_line
            } else {
                next_line_len
            };
        }
    }

    /// The cursor's line and column.
    pub fn get_cursor_display_position(&self) -> (p: (usize, usize))
        requires
            self.wf(),
        ensures
            p.0 == line_of(self@.content, self@.cursor as int),
            p.1 == column(self@.content, self@.cursor),
    {
        let row_idx = rope_char_to_line(&self.content, self.cursor_position);
        proof {
            lemma_position_in_line(rope_text(self.content), self.cursor_position as int);
        }
        let col_start_idx = rope_line_to_char(&self.content, row_idx);
        let col_idx = self.cursor_position - col_start_idx;
        (row_idx, col_idx)
    }

    /// How many characters, bytes, lines and chunks the rope has, and the
    /// average chunk size in bytes (0 when there are no chunks).
    pub fn rope_statistics(&self) -> (st: RopeStatistics)
        ensures
            st.chars == self@.content.len(),
            st.bytes == encode_utf8(self@.content).len(),
            st.lines == line_count(self@.content),
            st.avg_chunk_size == (if st.chunks > 0 {
                st.bytes / st.chunks
            } else {
                0
            }),
    {
        let chars = rope_len_chars(&self.content);
        let lines = rope_len_lines(&self.content);
        let bytes = rope_len_bytes(&self.content);
        let chunks = rope_chunk_count(&self.content);
        let avg_chunk_size = if chunks > 0 {
            bytes / chunks
        } else {
            0
        };
        RopeStatistics { chars, bytes, lines, chunks, avg_chunk_size }
    }

    /// Whether the text's hash differs from the saved text's hash.
    pub fn is_modified(&self) -> (m: bool)
        ensures
            m == modified(self@),
    {
        if self.content_hash != self.original_content_hash {
            true
        } else {
            false
        }
    }

    /// Records the current text and cursor as saved.
    pub fn mark_buffer_as_saved(&mut self)
        requires
            old(self).wf(),
        ensures
            final(self).wf(),
            final(self)@ == after_mark_saved(old(self)@),
            !modified(final(self)@),
    {
        self.original_content = rope_clone(&self.content);
        self.content_hash = hash_rope(&self.content);
        self.original_content_hash = hash_rope(&self.content);
        self.original_cursor_position = self.cursor_position;
    }

    /// Restores the saved text and cursor.
    pub fn reset_buffer(&mut self)
        requires
            old(self).wf(),
        ensures
            final(self).wf(),
            final(self)@ == after_reset(old(self)@),
            !modified(final(self)@),
    {
        self.content = rope_clone(&self.original_content);
        self.cursor_position = self.original_cursor_position;
        self.content_hash = hash_rope(&self.content);
    }

    /// The editing mode.
    pub fn get_edit_mode(&self) -> (m: EditMode)
        ensures
            m == self@.mode,
    {
        self.edit_mode
    }

    /// Sets the editing mode.
    pub fn set_edit_mode(&mut self, mode: EditMode)
        requires
            old(self).wf(),
        ensures
            final(self).wf(),
            final(self)@ == (TextBufferState { mode, ..old(self)@ }),
    {
        self.edit_mode = mode;
    }
}

/// Whether both hashes of `b` are the hashes of their texts.
pub open spec fn hashes_current(b: TextBufferState) -> bool {
    b.content_hash == text_hash(b.content) && b.saved_hash == text_hash(b.saved_content)
}

/// While a buffer is changed only by typing and backspace, its hashes stay
/// the hashes of its texts, so a text equal to the saved one counts as
/// unmodified. (The converse would need two different texts never to share
/// a 64-bit hash, which no hash guarantees.)
pub proof fn unchanged_text_is_unmodified(b: TextBufferState, ch: char)
    requires
        hashes_current(b),
    ensures
        b.content == b.saved_content ==> !modified(b),
        modified(b) ==> b.content != b.saved_content,
        hashes_current(after_insert_char(b, ch)),
        hashes_current(after_delete_char(b)),
        hashes_current(fresh_state(b.content, b.cursor)),
        hashes_current(after_mark_saved(b)),
        hashes_current(after_reset(b)),
{
}

/// Typing a character and then deleting it with backspace gives back the
/// text and the cursor, and the content hash is then the hash of that text.
pub proof fn insert_then_backspace_restores(b: TextBufferState, ch: char)
    requires
        b.cursor <= b.content.len(),
    ensures
        after_delete_char(after_insert_char(b, ch)).content == b.content,
        after_delete_char(after_insert_char(b, ch)).cursor == b.cursor,
        after_delete_char(after_insert_char(b, ch)).content_hash == text_hash(b.content),
        modified(after_delete_char(after_insert_char(b, ch))) == (text_hash(b.content)
            != b.saved_hash),
{
    assert(b.content.insert(b.cursor as int, ch).remove(b.cursor as int) =~= b.content);
}

/// Putting a character at a position and then deleting the character at that
/// position gives back the text and the cursor.
pub proof fn insert_at_then_delete_at_restores(b: TextBufferState, position: nat, ch: char)
    requires
        b.cursor <= b.content.len(),
        position <= b.content.len(),
    ensures
        after_delete_at(after_insert_at(b, position, ch), position) == b,
{
    assert(b.content.insert(position as int, ch).remove(position as int) =~= b.content);
}

/// A buffer just made from a text, or just marked as saved, or just reset to
/// its saved text, counts as unmodified; a reset gives back the saved text
/// and cursor.
pub proof fn saved_states_are_unmodified(text: Seq<char>, b: TextBufferState)
    requires
        b.saved_hash == text_hash(b.saved_content),
    ensures
        !modified(fresh_state(text, text.len())),
        !modified(after_mark_saved(b)),
        !modified(after_reset(b)),
        after_reset(b).content == b.saved_content,
        after_reset(b).cursor == b.saved_cursor,
        after_mark_saved(b).content == b.content,
{
}

/// Moving left and then right gives back the cursor when it was not at the
/// start; moving right and then left does when it was not at the end.
pub proof fn horizontal_moves_undo_each_other(b: TextBufferState)
    requires
        b.cursor <= b.content.len(),
    ensures
        b.cursor > 0 ==> after_move_right(after_move_left(b)) == b,
        b.cursor < b.content.len() ==> after_move_left(after_move_right(b)) == b,
{
}

/// A position from the start of line `t` up to the end of its text lies on
/// line `t`.
proof fn lemma_position_on_line(s: Seq<char>, t: nat, col: int)
    requires
        t < line_count(s),
        col >= 0,
    ensures
        line_of(s, position_on_line(s, t, col) as int) == t,
        position_on_line(s, t, col) <= s.len(),
{
    lemma_line_content_len(s, t);
    lemma_line_start(s, t);
    lemma_line_start(s, t + 1);
    let p = position_on_line(s, t, col) as int;
    lemma_line_of_monotone(s, line_start(s, t), p);
    if t + 1 < line_count(s) {
        assert(p < line_start(s, t + 1));
    } else {
        lemma_line_of_monotone(s, p, s.len() as int);
    }
}

/// Moving the cursor up (or down) puts it on the line above (or below),
/// unless it is already on the first (or last) line; it stays within the
/// text.
pub proof fn vertical_moves_change_line_by_one(b: TextBufferState)
    requires
        b.cursor <= b.content.len(),
    ensures
        after_move_up(b).cursor <= b.content.len(),
        after_move_down(b).cursor <= b.content.len(),
        line_of(b.content, b.cursor as int) > 0 ==> line_of(
            b.content,
            after_move_up(b).cursor as int,
        ) == line_of(b.content, b.cursor as int) - 1,
        line_of(b.content, b.cursor as int) + 1 < line_count(b.content) ==> line_of(
            b.content,
            after_move_down(b).cursor as int,
        ) == line_of(b.content, b.cursor as int) + 1,
{
    let s = b.content;
    let l = line_of(s, b.cursor as int);
    lemma_position_in_line(s, b.cursor as int);
    if l > 0 {
        lemma_position_on_line(s, (l - 1) as nat, column(s, b.cursor));
    }
    if l + 1 < line_count(s) {
        lemma_position_on_line(s, l + 1, column(s, b.cursor));
    }
}

} // verus!
