//! The editor front end: it drives one buffer at a time through its own
//! client, keeps the file name, the modified flag, the status line and the
//! viewport, and turns key presses into edits, mode changes and commands.
//! Reading and writing files and the terminal are left to the caller: the
//! editor hands out what to write and is told how the write went.
pub mod error;
pub mod keys;
pub mod model;
pub mod segments;

pub use crate::editor::error::{EditorError, EditorResult};
pub use crate::editor::keys::{KeyCode, KeyInput, KeyKind, KeyOutcome, SaveKind};
pub use crate::editor::model::FileWrite;
pub use crate::editor::segments::{Segment, highlight_segments, highlights_fit};

use vstd::prelude::*;
use crate::client::editor_client::{EditorClient, EditorClientState};
use crate::editor::error::error_debug;
use crate::editor::keys::{
    backspace, command_input, command_text, execute, insert_input, key_outcome, normal_input,
    normal_key, outcome_view, save_failed, visual_input, write_done, write_failed,
};
use crate::editor::model::{
    BufferRequest, EditorState, buffer_of, current, current_error, cursor_col, cursor_row,
    delete_at_cursor, file_info, greeting, help_line, holds, insert_at_cursor, insert_each,
    insert_text, missing_buffer, on_current, save_as_request, save_request, scroll_for_row,
    status_line, visible_lines,
};
use crate::rope_text::{line_count, rope_from_string, rope_len_lines};
use crate::server::editor_server::{CursorMove, cursors_in_text, initial_buffer, with_new_buffer};
use crate::server::events::{BufferId, EditMode};
use crate::syntax::{
    HighlightType, SyntaxError, SyntaxHighlighter, SyntaxTree, line_highlights_over,
    path_extension,
};
use crate::text::{
    chars_equal, chars_of, copy_range, debug_quoted_text, lines_of, push_decimal,
    starts_with_chars, string_from_chars, string_pop, string_push, trim_chars,
};

verus! {

/// A modal text editor: a client with its own server, the buffer being
/// edited, the file it belongs to, the status line, the viewport, and a
/// parse of the text for highlighting.
pub struct Editor {
    client: EditorClient,
    current_buffer_id: Option<BufferId>,
    current_file: Option<String>,
    is_modified: bool,
    status_message: String,
    viewport_size: usize,
    scroll_offset: usize,
    syntax_highlighter: SyntaxHighlighter,
    syntax_tree: Option<SyntaxTree>,
}

impl View for Editor {
    type V = EditorState;

    closed spec fn view(&self) -> EditorState {
        EditorState {
            client: self.client@,
            current_buffer: self.current_buffer_id,
            current_file: match self.current_file {
                Some(p) => Some(p@),
                None => None,
            },
            modified: self.is_modified,
            status: self.status_message@,
            viewport_size: self.viewport_size,
            scroll_offset: self.scroll_offset,
            highlighter: self.syntax_highlighter@,
        }
    }
}

impl Editor {
    /// The editor's client is well formed, and a parse of the text is at
    /// hand only when the parser has a language.
    pub closed spec fn wf(&self) -> bool {
        &&& self.client.wf()
        &&& self.syntax_tree is Some ==> self.syntax_highlighter@.language_set
    }

    /// Whether a parse of the text is at hand for highlighting.
    pub closed spec fn has_parse(&self) -> bool {
        self.syntax_tree is Some
    }

    /// The text of the parse at hand (meaningful when `has_parse`).
    pub closed spec fn parsed_text(&self) -> Seq<char> {
        self.syntax_tree->0.source()
    }

    /// The parse at hand is one of the current text, and there is one
    /// exactly when the parser has a language.
    pub open spec fn parse_follows_text(&self) -> bool {
        &&& self.has_parse() <==> self@.highlighter.language_set
        &&& self.has_parse() ==> self.parsed_text() == current(self@).content
    }

    /// In a well-formed editor every cursor lies within its text.
    pub proof fn lemma_cursors_in_text(&self)
        requires
            self.wf(),
        ensures
            cursors_in_text(self@.client.server),
    {
        self.client.lemma_cursors_in_text();
    }

    /// An editor with a client of its own, no buffer and no file.
    pub fn new() -> (r: EditorResult<Self>)
        ensures
            r matches Ok(ed) && ed.wf() && ed@.current_buffer is None && ed@.current_file is None
                && !ed@.modified && ed@.status == greeting() && ed@.viewport_size == 0
                && ed@.scroll_offset == 0 && ed@.client.active_buffers.len() == 0
                && ed@.client.server.buffers.is_empty() && !ed@.highlighter.highlighting
                && ed@.highlighter.names.len() == 0,
    {
        let client = match EditorClient::new() {
            Ok(c) => c,
            Err(e) => {
                return Err(EditorError::ClientError(e));
            },
        };
        Ok(
            Self {
                client,
                current_buffer_id: None,
                current_file: None,
                is_modified: false,
                status_message: "Hello from rust-text-editor".to_owned(),
                viewport_size: 0,
                scroll_offset: 0,
                syntax_highlighter: SyntaxHighlighter::new(),
                syntax_tree: None,
            },
        )
    }

    /// An editor whose current buffer holds `content`, with the cursor at
    /// its end.
    pub fn with_content(content: String) -> (r: EditorResult<Self>)
        ensures
            r matches Ok(ed) && ed.wf() && (ed@.current_buffer matches Some(id) && holds(ed@, id)
                && buffer_of(ed@, id).content == content@ && buffer_of(ed@, id).cursor
                == content@.len() && buffer_of(ed@, id).mode == EditMode::Normal
                && ed@.client.active_buffers == seq![id] && ed@.client.server.buffers.len() == 1
                && ed@.current_file is None && !ed@.modified && ed@.status == greeting()
                && ed@.viewport_size == 0 && ed@.scroll_offset == 0
                && !ed@.highlighter.highlighting && ed@.highlighter.names.len() == 0),
    {
        let mut client = match EditorClient::new() {
            Ok(c) => c,
            Err(e) => {
                return Err(EditorError::ClientError(e));
            },
        };
        let buffer_id = match client.create_buffer(Some(content)) {
            Ok(id) => id,
            Err(e) => {
                return Err(EditorError::ClientError(e));
            },
        };
        proof {
            assert(client@.server.buffers.dom() =~= set![buffer_id.0]);
            assert(set![buffer_id.0].len() == 1);
        }
        Ok(
            Self {
                client,
                current_buffer_id: Some(buffer_id),
                current_file: None,
                is_modified: false,
                status_message: "Hello from rust-text-editor".to_owned(),
                viewport_size: 0,
                scroll_offset: 0,
                syntax_highlighter: SyntaxHighlighter::new(),
                syntax_tree: None,
            },
        )
    }

    /// An editor for the file at `path`, read by the caller as `content`:
    /// its current buffer holds the text, the status line names the file,
    /// and highlighting is set up for the file's extension. The second
    /// part of the answer says whether that setup failed.
    pub fn open_file(path: String, content: String) -> (r: EditorResult<
        (Self, Result<(), SyntaxError>),
    >)
        ensures
            r matches Ok((ed, syn)) && ed.wf() && (ed@.current_buffer matches Some(id) && holds(
                ed@,
                id,
            ) && buffer_of(ed@, id).content == content@ && buffer_of(ed@, id).cursor
                == content@.len() && ed@.client.active_buffers == seq![id]
                && ed@.current_file == Some(path@) && !ed@.modified && ed@.status
                == "Opened file: "@ + path@ && ed@.viewport_size == 0 && ed@.scroll_offset == 0
                && ed.parse_follows_text() && (path_extension(path@) != Some("rs"@) ==> syn is Ok
                && !ed@.highlighter.highlighting) && (path_extension(path@) == Some("rs"@)
                && syn is Ok ==> ed@.highlighter.highlighting)),
    {
        let mut ed = match Self::with_content(content.clone()) {
            Ok(ed) => ed,
            Err(e) => {
                return Err(e);
            },
        };
        let mut status = "Opened file: ".to_owned();
        status.append(path.as_str());
        ed.status_message = status;
        let syn = ed.syntax_highlighter.set_language_from_path(path.as_str());
        ed.current_file = Some(path);
        ed.syntax_tree = ed.syntax_highlighter.parse(content.as_str());
        Ok((ed, syn))
    }
    /// The current buffer, if any.
    pub fn current_buffer_id(&self) -> (r: Option<BufferId>)
        ensures
            r == self@.current_buffer,
    {
        self.current_buffer_id
    }

    /// The number of buffers the editor created.
    pub fn buffer_count(&self) -> (n: usize)
        ensures
            n == self@.client.active_buffers.len(),
    {
        self.client.buffer_count()
    }

    /// Creates a buffer, empty or holding `content`, and makes it current.
    pub fn create_new_buffer(&mut self, content: Option<String>) -> (r: EditorResult<BufferId>)
        requires
            old(self).wf(),
        ensures
            final(self).wf(),
            r matches Ok(id) && final(self)@ == (EditorState {
                client: EditorClientState {
                    server: with_new_buffer(
                        old(self)@.client.server,
                        id,
                        old(self)@.client.client_id,
                        initial_buffer(content),
                    ),
                    active_buffers: old(self)@.client.active_buffers.push(id),
                    ..old(self)@.client
                },
                current_buffer: Some(id),
                ..old(self)@
            }),
    {
        match self.client.create_buffer(content) {
            Ok(id) => {
                self.current_buffer_id = Some(id);
                Ok(id)
            },
            Err(e) => Err(EditorError::ClientError(e)),
        }
    }

    /// Makes `buffer_id` the current buffer (whether or not the server
    /// holds it).
    pub fn switch_to_buffer(&mut self, buffer_id: BufferId) -> (r: EditorResult<()>)
        ensures
            final(self).wf() == old(self).wf(),
            r is Ok,
            final(self)@ == (EditorState { current_buffer: Some(buffer_id), ..old(self)@ }),
    {
        self.current_buffer_id = Some(buffer_id);
        Ok(())
    }

    /// The text of the current buffer.
    pub fn get_current_buffer_content(&self) -> (r: EditorResult<String>)
        ensures
            current_error(self@) matches Some(err) ==> (r matches Err(e) && e == err),
            current_error(self@) is None ==> (r matches Ok(s) && s@ == current(self@).content),
    {
        match self.current_buffer_id {
            None => Err(EditorError::NoActiveBuffer),
            Some(id) => match self.client.get_content(id) {
                Ok(s) => Ok(s),
                Err(e) => Err(EditorError::ClientError(e)),
            },
        }
    }

    /// Parses the text of the current buffer again for highlighting.
    fn update_syntax_tree(&mut self) -> (r: EditorResult<()>)
        requires
            old(self).wf(),
        ensures
            final(self).wf(),
            final(self)@ == old(self)@,
            r == match old(self)@.current_buffer {
                None => Ok(()),
                Some(id) => if holds(old(self)@, id) {
                    Ok(())
                } else {
                    Err(missing_buffer())
                },
            },
            r is Ok && old(self)@.current_buffer is Some ==> final(self).parse_follows_text(),
    {
        if let Some(id) = self.current_buffer_id {
            let content = match self.client.get_content(id) {
                Ok(s) => s,
                Err(e) => {
                    return Err(EditorError::ClientError(e));
                },
            };
            self.syntax_tree = self.syntax_highlighter.parse(content.as_str());
        }
        Ok(())
    }

    /// Types `ch` at the cursor of the current buffer (see
    /// `insert_at_cursor`).
    pub fn insert_char_at_cursor(&mut self, ch: char) -> (r: EditorResult<()>)
        requires
            old(self).wf(),
        ensures
            final(self).wf(),
            (final(self)@, r) == insert_at_cursor(old(self)@, ch),
            r is Ok ==> final(self).parse_follows_text(),
    {
        let id = match self.current_buffer_id {
            None => {
                return Err(EditorError::NoActiveBuffer);
            },
            Some(id) => id,
        };
        let pos = match self.client.get_cursor_position(id) {
            Ok(p) => p,
            Err(e) => {
                return Err(EditorError::ClientError(e));
            },
        };
        match self.client.insert_char(id, pos, ch) {
            Ok(()) => {},
            Err(e) => {
                return Err(EditorError::ClientError(e));
            },
        }
        self.is_modified = true;
        self.update_syntax_tree()
    }

    /// Deletes the character at the cursor of the current buffer (see
    /// `delete_at_cursor`).
    pub fn delete_char_at_cursor(&mut self) -> (r: EditorResult<()>)
        requires
            old(self).wf(),
        ensures
            final(self).wf(),
            (final(self)@, r) == delete_at_cursor(old(self)@),
            r is Ok ==> final(self).parse_follows_text(),
    {
        let id = match self.current_buffer_id {
            None => {
                return Err(EditorError::NoActiveBuffer);
            },
            Some(id) => id,
        };
        let pos = match self.client.get_cursor_position(id) {
            Ok(p) => p,
            Err(e) => {
                return Err(EditorError::ClientError(e));
            },
        };
        match self.client.delete_char(id, pos) {
            Ok(()) => {},
            Err(e) => {
                return Err(EditorError::ClientError(e));
            },
        }
        self.is_modified = true;
        self.update_syntax_tree()
    }

    /// Types each character of `text` at the cursor of the current buffer
    /// (see `insert_text`).
    pub fn insert_text_at_cursor(&mut self, text: &str) -> (r: EditorResult<()>)
        requires
            old(self).wf(),
        ensures
            final(self).wf(),
            (final(self)@, r) == insert_text(old(self)@, text@),
            r is Ok ==> final(self).parse_follows_text(),
    {
        let id = match self.current_buffer_id {
            None => {
                return Err(EditorError::NoActiveBuffer);
            },
            Some(id) => id,
        };
        let chars = chars_of(text);
        let mut i: usize = 0;
        assert(chars@.skip(0) =~= chars@);
        while i < chars.len()
            invariant
                self.wf(),
                i <= chars@.len(),
                chars@ == text@,
                old(self)@.current_buffer == Some(id),
                self@ == (EditorState { client: self@.client, ..old(self)@ }),
                insert_each(old(self)@.client, id, text@) == insert_each(
                    self@.client,
                    id,
                    chars@.skip(i as int),
                ),
            decreases chars.len() - i,
        {
            let pos = match self.client.get_cursor_position(id) {
                Ok(p) => p,
                Err(e) => {
                    return Err(EditorError::ClientError(e));
                },
            };
            assert(chars@.skip(i as int)[0] == chars@[i as int]);
            match self.client.insert_char(id, pos, chars[i]) {
                Ok(()) => {},
                Err(e) => {
                    return Err(EditorError::ClientError(e));
                },
            }
            assert(chars@.skip(i as int).drop_first() =~= chars@.skip(i + 1));
            i += 1;
        }
        assert(chars@.skip(i as int) =~= Seq::<char>::empty());
        self.is_modified = true;
        self.update_syntax_tree()
    }

    /// Passes request `q` for the current buffer to the client (see
    /// `on_current`).
    fn request(&mut self, q: BufferRequest) -> (r: EditorResult<()>)
        requires
            old(self).wf(),
        ensures
            final(self).wf(),
            (final(self)@, r) == on_current(old(self)@, q),
    {
        let id = match self.current_buffer_id {
            None => {
                return Err(EditorError::NoActiveBuffer);
            },
            Some(id) => id,
        };
        let result = match q {
            BufferRequest::SetCursor(p) => self.client.set_cursor_position(id, p),
            BufferRequest::Move(m) => self.client.move_cursor(id, m),
            BufferRequest::SetMode(mode) => self.client.set_mode(id, mode),
        };
        match result {
            Ok(()) => Ok(()),
            Err(e) => Err(EditorError::ClientError(e)),
        }
    }

    /// The cursor position of the current buffer.
    pub fn get_cursor_position(&self) -> (r: EditorResult<usize>)
        ensures
            current_error(self@) matches Some(err) ==> (r matches Err(e) && e == err),
            current_error(self@) is None ==> (r matches Ok(p) && p == current(self@).cursor),
    {
        match self.current_buffer_id {
            None => Err(EditorError::NoActiveBuffer),
            Some(id) => match self.client.get_cursor_position(id) {
                Ok(p) => Ok(p),
                Err(e) => Err(EditorError::ClientError(e)),
            },
        }
    }

    /// Sets the cursor of the current buffer to `position`, or to the end of
    /// the text when `position` lies past it.
    pub fn set_cursor_position(&mut self, position: usize) -> (r: EditorResult<()>)
        requires
            old(self).wf(),
        ensures
            final(self).wf(),
            (final(self)@, r) == on_current(old(self)@, BufferRequest::SetCursor(position)),
    {
        self.request(BufferRequest::SetCursor(position))
    }

    /// The line and column of the cursor of the current buffer.
    pub fn get_cursor_display_position(&self) -> (r: EditorResult<(usize, usize)>)
        requires
            self.wf(),
        ensures
            current_error(self@) matches Some(err) ==> (r matches Err(e) && e == err),
            current_error(self@) is None ==> (r matches Ok(p) && p.0 == cursor_row(current(self@))
                && p.1 == cursor_col(current(self@))),
    {
        match self.current_buffer_id {
            None => Err(EditorError::NoActiveBuffer),
            Some(id) => match self.client.get_cursor_display_position(id) {
                Ok(p) => Ok(p),
                Err(e) => Err(EditorError::ClientError(e)),
            },
        }
    }

    /// Moves the cursor of the current buffer one character left.
    pub fn move_cursor_left(&mut self) -> (r: EditorResult<()>)
        requires
            old(self).wf(),
        ensures
            final(self).wf(),
            (final(self)@, r) == on_current(old(self)@, BufferRequest::Move(CursorMove::Left)),
    {
        self.request(BufferRequest::Move(CursorMove::Left))
    }

    /// Moves the cursor of the current buffer one character right.
    pub fn move_cursor_right(&mut self) -> (r: EditorResult<()>)
        requires
            old(self).wf(),
        ensures
            final(self).wf(),
            (final(self)@, r) == on_current(old(self)@, BufferRequest::Move(CursorMove::Right)),
    {
        self.request(BufferRequest::Move(CursorMove::Right))
    }

    /// Moves the cursor of the current buffer to the line above.
    pub fn move_cursor_up(&mut self) -> (r: EditorResult<()>)
        requires
            old(self).wf(),
        ensures
            final(self).wf(),
            (final(self)@, r) == on_current(old(self)@, BufferRequest::Move(CursorMove::Up)),
    {
        self.request(BufferRequest::Move(CursorMove::Up))
    }

    /// Moves the cursor of the current buffer to the line below.
    pub fn move_cursor_down(&mut self) -> (r: EditorResult<()>)
        requires
            old(self).wf(),
        ensures
            final(self).wf(),
            (final(self)@, r) == on_current(old(self)@, BufferRequest::Move(CursorMove::Down)),
    {
        self.request(BufferRequest::Move(CursorMove::Down))
    }

    /// The editing mode of the current buffer.
    pub fn get_current_mode(&self) -> (r: EditorResult<EditMode>)
        ensures
            current_error(self@) matches Some(err) ==> (r matches Err(e) && e == err),
            current_error(self@) is None ==> r == Ok::<EditMode, EditorError>(
                current(self@).mode,
            ),
    {
        match self.current_buffer_id {
            None => Err(EditorError::NoActiveBuffer),
            Some(id) => match self.client.get_mode(id) {
                Ok(m) => Ok(m),
                Err(e) => Err(EditorError::ClientError(e)),
            },
        }
    }

    /// Puts the current buffer in normal mode.
    pub fn enter_normal_mode(&mut self) -> (r: EditorResult<()>)
        requires
            old(self).wf(),
        ensures
            final(self).wf(),
            (final(self)@, r) == on_current(old(self)@, BufferRequest::SetMode(EditMode::Normal)),
    {
        self.request(BufferRequest::SetMode(EditMode::Normal))
    }

    /// Puts the current buffer in insert mode.
    pub fn enter_insert_mode(&mut self) -> (r: EditorResult<()>)
        requires
            old(self).wf(),
        ensures
            final(self).wf(),
            (final(self)@, r) == on_current(old(self)@, BufferRequest::SetMode(EditMode::Insert)),
    {
        self.request(BufferRequest::SetMode(EditMode::Insert))
    }

    /// Puts the current buffer in visual mode.
    pub fn enter_visual_mode(&mut self) -> (r: EditorResult<()>)
        requires
            old(self).wf(),
        ensures
            final(self).wf(),
            (final(self)@, r) == on_current(old(self)@, BufferRequest::SetMode(EditMode::Visual)),
    {
        self.request(BufferRequest::SetMode(EditMode::Visual))
    }

    /// Puts the current buffer in command mode.
    pub fn enter_command_mode(&mut self) -> (r: EditorResult<()>)
        requires
            old(self).wf(),
        ensures
            final(self).wf(),
            (final(self)@, r) == on_current(old(self)@, BufferRequest::SetMode(EditMode::Command)),
    {
        self.request(BufferRequest::SetMode(EditMode::Command))
    }
    /// The file the editor writes to, if any.
    pub fn current_file_path(&self) -> (r: Option<&String>)
        ensures
            r matches Some(p) ==> self@.current_file == Some(p@),
            r is None ==> self@.current_file is None,
    {
        self.current_file.as_ref()
    }

    /// Whether the text changed since it was opened or last saved.
    pub fn is_modified(&self) -> (m: bool)
        ensures
            m == self@.modified,
    {
        self.is_modified
    }

    /// What saving the current buffer to its file writes (see
    /// `save_request`); the caller writes it and then calls `record_save`.
    pub fn save(&self) -> (r: EditorResult<FileWrite>)
        ensures
            save_request(self@) matches Err(err) ==> (r matches Err(e) && e == err),
            save_request(self@) matches Ok(w) ==> (r matches Ok(fw) && fw@ == w),
    {
        let path = match &self.current_file {
            Some(p) => p,
            None => {
                return match self.current_buffer_id {
                    Some(_) => Err(EditorError::NoFilePath),
                    None => Err(EditorError::NoActiveBuffer),
                };
            },
        };
        let id = match self.current_buffer_id {
            Some(id) => id,
            None => {
                return Err(EditorError::NoActiveBuffer);
            },
        };
        match self.client.get_content(id) {
            Ok(content) => Ok(FileWrite { path: path.clone(), content }),
            Err(e) => Err(EditorError::ClientError(e)),
        }
    }

    /// Records that `write`, from `save`, went to disk: the text counts as
    /// saved and the status line says where.
    pub fn record_save(&mut self, write: &FileWrite)
        ensures
            final(self).wf() == old(self).wf(),
            final(self)@ == (EditorState {
                modified: false,
                status: "Saved: "@ + write.path@,
                ..old(self)@
            }),
    {
        self.is_modified = false;
        let mut status = "Saved: ".to_owned();
        status.append(write.path.as_str());
        self.status_message = status;
    }

    /// What saving the current buffer to `path` writes (see
    /// `save_as_request`); the caller writes it and then calls
    /// `record_save_as`.
    pub fn save_as(&self, path: String) -> (r: EditorResult<FileWrite>)
        ensures
            save_as_request(self@, path@) matches Err(err) ==> (r matches Err(e) && e == err),
            save_as_request(self@, path@) matches Ok(w) ==> (r matches Ok(fw) && fw@ == w),
    {
        match self.current_buffer_id {
            None => Err(EditorError::NoActiveBuffer),
            Some(id) => match self.client.get_content(id) {
                Ok(content) => Ok(FileWrite { path, content }),
                Err(e) => Err(EditorError::ClientError(e)),
            },
        }
    }

    /// Records that `write`, from `save_as`, went to disk: its path becomes
    /// the editor's file, the text counts as saved and the status line says
    /// where.
    pub fn record_save_as(&mut self, write: &FileWrite)
        ensures
            final(self).wf() == old(self).wf(),
            final(self)@ == (EditorState {
                current_file: Some(write.path@),
                modified: false,
                status: "Saved as: "@ + write.path@,
                ..old(self)@
            }),
    {
        self.current_file = Some(write.path.clone());
        self.is_modified = false;
        let mut status = "Saved as: ".to_owned();
        status.append(write.path.as_str());
        self.status_message = status;
    }

    /// The status message.
    pub fn get_status_message(&self) -> (s: &str)
        ensures
            s@ == self@.status,
    {
        self.status_message.as_str()
    }

    /// Replaces the status message.
    pub fn set_status_message(&mut self, message: String)
        ensures
            final(self).wf() == old(self).wf(),
            final(self)@ == (EditorState { status: message@, ..old(self)@ }),
    {
        self.status_message = message;
    }

    /// The number of text lines the viewport shows.
    pub fn get_viewport_size(&self) -> (n: usize)
        ensures
            n == self@.viewport_size,
    {
        self.viewport_size
    }

    /// Sets the number of text lines the viewport shows.
    pub fn set_viewport_size(&mut self, size: usize)
        ensures
            final(self).wf() == old(self).wf(),
            final(self)@ == (EditorState { viewport_size: size, ..old(self)@ }),
    {
        self.viewport_size = size;
    }

    /// The first text line the viewport shows.
    pub fn get_scroll_offset(&self) -> (n: usize)
        ensures
            n == self@.scroll_offset,
    {
        self.scroll_offset
    }

    /// Sets the first text line the viewport shows.
    pub fn set_scroll_offset(&mut self, offset: usize)
        ensures
            final(self).wf() == old(self).wf(),
            final(self)@ == (EditorState { scroll_offset: offset, ..old(self)@ }),
    {
        self.scroll_offset = offset;
    }

    /// The lines of the current text that the viewport shows (see
    /// `visible_lines`).
    pub fn get_visible_lines(&self) -> (r: EditorResult<Vec<String>>)
        ensures
            current_error(self@) matches Some(err) ==> (r matches Err(e) && e == err),
            current_error(self@) is None ==> (r matches Ok(v) && v@.map_values(|l: String| l@)
                == visible_lines(current(self@).content, self@.scroll_offset, self@.viewport_size)),
    {
        let content = match self.get_current_buffer_content() {
            Ok(c) => c,
            Err(e) => {
                return Err(e);
            },
        };
        let chars = chars_of(content.as_str());
        let lines = lines_of(chars.as_slice());
        let n = lines.len();
        let start = if self.scroll_offset <= n {
            self.scroll_offset
        } else {
            n
        };
        let count = if self.viewport_size <= n - start {
            self.viewport_size
        } else {
            n - start
        };
        let ghost all = lines@.map_values(|l: String| l@);
        let ghost want = visible_lines(content@, self.scroll_offset, self.viewport_size);
        assert(want =~= all.subrange(start as int, start + count));
        let mut visible: Vec<String> = Vec::new();
        let mut i: usize = 0;
        while i < count
            invariant
                start + count <= n,
                n == lines@.len(),
                all == lines@.map_values(|l: String| l@),
                i <= count,
                visible@.map_values(|l: String| l@) == all.subrange(start as int, start + i),
            decreases count - i,
        {
            let line = lines[start + i].clone();
            let ghost before = visible@.map_values(|l: String| l@);
            visible.push(line);
            assert(visible@.map_values(|l: String| l@) =~= before.push(line@));
            i += 1;
            assert(all.subrange(start as int, start + i) =~= all.subrange(
                start as int,
                start + i - 1,
            ).push(all[start + i - 1]));
        }
        Ok(visible)
    }

    /// The status line: cursor position, mode and status message. It asks
    /// for a current buffer that the server holds.
    pub fn get_status_line_info(&self) -> (r: EditorResult<String>)
        requires
            self.wf(),
            current_error(self@) is None,
        ensures
            r matches Ok(s) && s@ == status_line(self@),
    {
        let (row, col) = match self.get_cursor_display_position() {
            Ok(p) => p,
            Err(_) => {
                proof {
                    assert(false);
                }
                (0, 0)
            },
        };
        let mode = match self.get_current_mode() {
            Ok(m) => m,
            Err(e) => {
                return Err(e);
            },
        };
        let label = match mode {
            EditMode::Normal => "NORMAL",
            EditMode::Insert => "INSERT",
            EditMode::Visual => "VISUAL",
            EditMode::Command => "COMMAND",
        };
        let mut s = "Cursor: (".to_owned();
        push_decimal(&mut s, row as u128 + 1);
        s.append(":");
        push_decimal(&mut s, col as u128 + 1);
        s.append(") | Mode: ");
        s.append(debug_quoted_text(label).as_str());
        s.append(" | Status: ");
        s.append(self.status_message.as_str());
        Ok(s)
    }

    /// The two lines under the text: the status line with the file name
    /// and a `[+]` for unsaved changes, and the cursor position with the
    /// keys of the current mode.
    pub fn status_lines(&self) -> (r: EditorResult<(String, String)>)
        requires
            self.wf(),
        ensures
            current_error(self@) matches Some(err) ==> (r matches Err(e) && e == err),
            current_error(self@) is None ==> (r matches Ok((a, b)) && a@ == status_line(self@)
                + file_info(self@) && b@ == help_line(self@)),
    {
        let (row, col) = match self.get_cursor_display_position() {
            Ok(p) => p,
            Err(e) => {
                return Err(e);
            },
        };
        let mut first = match self.get_status_line_info() {
            Ok(s) => s,
            Err(e) => {
                return Err(e);
            },
        };
        let ghost line = first@;
        let mut info = " | ".to_owned();
        match &self.current_file {
            Some(p) => info.append(p.as_str()),
            None => info.append("[No Name]"),
        }
        if self.is_modified {
            info.append(" [+]");
        }
        proof {
            reveal_strlit(" | ");
            reveal_strlit("[No Name]");
            reveal_strlit(" | [No Name]");
            assert(info@ =~= file_info(self@));
        }
        first.append(info.as_str());
        let mode = match self.get_current_mode() {
            Ok(m) => m,
            Err(e) => {
                return Err(e);
            },
        };
        let help = match mode {
            EditMode::Normal => "i=Insert, v=Visual, :=Command",
            EditMode::Insert => "ESC=Normal",
            EditMode::Visual => "ESC=Normal",
            EditMode::Command => "ESC=Normal, Enter=Execute",
        };
        let mut second = String::new();
        push_decimal(&mut second, row as u128 + 1);
        second.append(":");
        push_decimal(&mut second, col as u128 + 1);
        second.append(" | ");
        second.append(help);
        Ok((first, second))
    }

    /// Scrolls the viewport so that the cursor's line is in it (see
    /// `scroll_for_row`).
    pub fn update_scroll_for_cursor(&mut self) -> (r: EditorResult<()>)
        requires
            old(self).wf(),
        ensures
            final(self).wf(),
            current_error(old(self)@) matches Some(err) ==> (r matches Err(e) && e == err
                && final(self)@ == old(self)@),
            current_error(old(self)@) is None ==> r is Ok && final(self)@ == (EditorState {
                scroll_offset: scroll_for_row(
                    cursor_row(current(old(self)@)),
                    old(self)@.scroll_offset,
                    old(self)@.viewport_size,
                ) as usize,
                ..old(self)@
            }),
    {
        let (row, _) = match self.get_cursor_display_position() {
            Ok(p) => p,
            Err(e) => {
                return Err(e);
            },
        };
        if row >= self.viewport_size && row - self.viewport_size >= self.scroll_offset {
            // With no lines in view the cursor's line becomes the offset.
            if self.viewport_size == 0 {
                self.scroll_offset = row;
            } else {
                self.scroll_offset = row - self.viewport_size + 1;
            }
        }
        if row < self.scroll_offset {
            self.scroll_offset = row;
        }
        Ok(())
    }
    /// Handles a key of normal mode (see `normal_key`).
    pub fn handle_normal_mode_key(&mut self, key: char) -> (r: EditorResult<()>)
        requires
            old(self).wf(),
        ensures
            final(self).wf(),
            (final(self)@, r) == normal_key(old(self)@, key),
    {
        if key == 'i' {
            self.enter_insert_mode()
        } else if key == 'v' {
            self.enter_visual_mode()
        } else if key == 'k' {
            self.move_cursor_up()
        } else if key == 'l' {
            self.move_cursor_right()
        } else if key == 'h' {
            self.move_cursor_left()
        } else if key == 'j' {
            self.move_cursor_down()
        } else {
            Ok(())
        }
    }

    /// Types `ch` in insert mode.
    pub fn handle_insert_mode_char(&mut self, ch: char) -> (r: EditorResult<()>)
        requires
            old(self).wf(),
        ensures
            final(self).wf(),
            (final(self)@, r) == insert_at_cursor(old(self)@, ch),
    {
        self.insert_char_at_cursor(ch)
    }

    /// Handles a backspace in insert mode (see `backspace`).
    pub fn handle_insert_mode_backspace(&mut self) -> (r: EditorResult<()>)
        requires
            old(self).wf(),
        ensures
            final(self).wf(),
            (final(self)@, r) == backspace(old(self)@),
    {
        match self.move_cursor_left() {
            Ok(()) => {},
            Err(e) => {
                return Err(e);
            },
        }
        self.delete_char_at_cursor()
    }

    /// Leaves insert mode for normal mode.
    pub fn handle_insert_mode_escape(&mut self) -> (r: EditorResult<()>)
        requires
            old(self).wf(),
        ensures
            final(self).wf(),
            (final(self)@, r) == on_current(old(self)@, BufferRequest::SetMode(EditMode::Normal)),
    {
        self.enter_normal_mode()
    }

    /// Counts the text as saved.
    pub fn mark_as_saved(&mut self)
        ensures
            final(self).wf() == old(self).wf(),
            final(self)@ == (EditorState { modified: false, ..old(self)@ }),
    {
        self.is_modified = false;
    }

    /// Where the cursor is on screen: its line counted from the first line
    /// shown (zero when the line lies above the viewport), and its column.
    pub fn get_cursor_viewport_position(&self) -> (r: EditorResult<(usize, usize)>)
        requires
            self.wf(),
        ensures
            current_error(self@) matches Some(err) ==> (r matches Err(e) && e == err),
            current_error(self@) is None ==> (r matches Ok(p) && p.0 == (if cursor_row(
                current(self@),
            ) >= self@.scroll_offset {
                cursor_row(current(self@)) - self@.scroll_offset
            } else {
                0
            }) && p.1 == cursor_col(current(self@))),
    {
        match self.get_cursor_display_position() {
            Ok((row, col)) => Ok((row.saturating_sub(self.scroll_offset), col)),
            Err(e) => Err(e),
        }
    }

    /// The highlights of line `line_idx` of the current text: none without
    /// a parse at hand (so none while the parser has no language); with
    /// one, the current buffer is read (its errors are passed on), and the
    /// highlights are those the highlight query gives for the line over the
    /// parse (see `line_highlights_over`), none without a highlight query
    /// or for a line past the end of the text.
    pub fn highlights_for_line(&self, line_idx: usize) -> (r: EditorResult<
        Vec<(usize, usize, HighlightType)>,
    >)
        requires
            self.wf(),
        ensures
            !self.has_parse() ==> (r matches Ok(v) && v@.len() == 0),
            !self@.highlighter.language_set ==> (r matches Ok(v) && v@.len() == 0),
            self.has_parse() ==> (current_error(self@) matches Some(err) ==> (r matches Err(e)
                && e == err)),
            self.has_parse() && current_error(self@) is None ==> (r matches Ok(v) && v@ == (
            if self@.highlighter.highlighting && line_idx <= line_count(current(self@).content) {
                line_highlights_over(
                    self.parsed_text(),
                    current(self@).content,
                    line_idx as nat,
                    self@.highlighter.names,
                )
            } else {
                Seq::empty()
            })),
    {
        let tree = match &self.syntax_tree {
            None => {
                return Ok(Vec::new());
            },
            Some(t) => t,
        };
        let content = match self.get_current_buffer_content() {
            Ok(c) => c,
            Err(e) => {
                return Err(e);
            },
        };
        let rope = rope_from_string(content);
        if line_idx > rope_len_lines(&rope) {
            return Ok(Vec::new());
        }
        Ok(self.syntax_highlighter.highlight_line(&rope, line_idx, tree))
    }

    /// Sets the status message to the failure `e` of a save that could
    /// not start.
    fn report_save_failure(&mut self, e: &EditorError)
        requires
            error_debug(*e) is Some,
        ensures
            final(self).wf() == old(self).wf(),
            final(self)@ == save_failed(old(self)@, *e),
    {
        let mut status = "Save failed: ".to_owned();
        status.append(e.debug_text().as_str());
        self.status_message = status;
    }

    /// The command on the status line (see `command_text`).
    fn command(&self) -> (c: Vec<char>)
        ensures
            c@ == command_text(self@.status),
    {
        let chars = chars_of(self.status_message.as_str());
        let mut i: usize = 0;
        assert(chars@.skip(0) =~= chars@);
        while i < chars.len() && chars[i] == ':'
            invariant
                i <= chars@.len(),
                command_text(chars@) == command_text(chars@.skip(i as int)),
            decreases chars.len() - i,
        {
            assert(chars@.skip(i as int).drop_first() =~= chars@.skip(i + 1));
            i += 1;
        }
        let c = copy_range(chars.as_slice(), i, chars.len());
        assert(c@ =~= chars@.skip(i as int));
        c
    }

    /// Runs the command on the status line (see `execute`).
    fn execute_command(&mut self) -> (o: KeyOutcome)
        requires
            old(self).wf(),
        ensures
            final(self).wf(),
            (final(self)@, o@) == execute(old(self)@),
    {
        let cmd = self.command();
        if chars_equal(cmd.as_slice(), chars_of("q").as_slice()) {
            if self.is_modified {
                self.status_message = "File modified! Use :q! to quit without saving".to_owned();
                return KeyOutcome::Continue;
            }
            return KeyOutcome::Exit;
        }
        if chars_equal(cmd.as_slice(), chars_of("q!").as_slice()) {
            return KeyOutcome::Exit;
        }
        let is_w = chars_equal(cmd.as_slice(), chars_of("w").as_slice());
        let is_wq = chars_equal(cmd.as_slice(), chars_of("wq").as_slice());
        if is_w || is_wq {
            return match self.save() {
                Err(e) => {
                    self.report_save_failure(&e);
                    KeyOutcome::Continue
                },
                Ok(w) => KeyOutcome::Write(
                    if is_w {
                        SaveKind::Save
                    } else {
                        SaveKind::SaveAndQuit
                    },
                    w,
                ),
            };
        }
        if starts_with_chars(cmd.as_slice(), chars_of("w ").as_slice()) {
            proof {
                reveal_strlit("w ");
            }
            let rest = copy_range(cmd.as_slice(), 2, cmd.len());
            assert(rest@ =~= cmd@.skip(2));
            let name = string_from_chars(trim_chars(rest.as_slice()).as_slice());
            return match self.save_as(name) {
                Err(e) => {
                    self.report_save_failure(&e);
                    KeyOutcome::Continue
                },
                Ok(w) => KeyOutcome::Write(SaveKind::SaveAs, w),
            };
        }
        let mut status = "Unknown command: ".to_owned();
        status.append(string_from_chars(cmd.as_slice()).as_str());
        self.status_message = status;
        KeyOutcome::Continue
    }

    /// Handles key `code` in normal mode (see `normal_input`).
    fn handle_normal_mode_input(&mut self, code: KeyCode) -> (r: EditorResult<()>)
        requires
            old(self).wf(),
        ensures
            final(self).wf(),
            (final(self)@, r) == normal_input(old(self)@, code),
    {
        match code {
            KeyCode::Char(ch) => {
                if ch == ':' {
                    match self.enter_command_mode() {
                        Ok(()) => {},
                        Err(e) => {
                            return Err(e);
                        },
                    }
                    self.status_message = ":".to_owned();
                    Ok(())
                } else {
                    match self.handle_normal_mode_key(ch) {
                        Ok(()) => {},
                        Err(e) => {
                            return Err(e);
                        },
                    }
                    let status = chars_of(self.status_message.as_str());
                    if !starts_with_chars(status.as_slice(), chars_of("File modified!").as_slice()) {
                        self.status_message = String::new();
                    }
                    Ok(())
                }
            },
            KeyCode::Left => self.move_cursor_left(),
            KeyCode::Right => self.move_cursor_right(),
            KeyCode::Up => self.move_cursor_up(),
            KeyCode::Down => self.move_cursor_down(),
            _ => Ok(()),
        }
    }

    /// Handles key `code` in insert mode (see `insert_input`).
    fn handle_insert_mode_input(&mut self, code: KeyCode) -> (r: EditorResult<()>)
        requires
            old(self).wf(),
        ensures
            final(self).wf(),
            (final(self)@, r) == insert_input(old(self)@, code),
    {
        match code {
            KeyCode::Esc => {
                match self.handle_insert_mode_escape() {
                    Ok(()) => {},
                    Err(e) => {
                        return Err(e);
                    },
                }
                self.status_message = String::new();
                Ok(())
            },
            KeyCode::Char(ch) => self.handle_insert_mode_char(ch),
            KeyCode::Backspace => self.handle_insert_mode_backspace(),
            KeyCode::Enter => self.handle_insert_mode_char('\n'),
            KeyCode::Left => self.move_cursor_left(),
            KeyCode::Right => self.move_cursor_right(),
            KeyCode::Up => self.move_cursor_up(),
            KeyCode::Down => self.move_cursor_down(),
            _ => Ok(()),
        }
    }

    /// Handles key `code` in visual mode (see `visual_input`).
    fn handle_visual_mode_input(&mut self, code: KeyCode) -> (r: EditorResult<()>)
        requires
            old(self).wf(),
        ensures
            final(self).wf(),
            (final(self)@, r) == visual_input(old(self)@, code),
    {
        match code {
            KeyCode::Esc => {
                match self.enter_normal_mode() {
                    Ok(()) => {},
                    Err(e) => {
                        return Err(e);
                    },
                }
                self.status_message = String::new();
                Ok(())
            },
            KeyCode::Char('h') => self.move_cursor_left(),
            KeyCode::Char('j') => self.move_cursor_down(),
            KeyCode::Char('k') => self.move_cursor_up(),
            KeyCode::Char('l') => self.move_cursor_right(),
            KeyCode::Left => self.move_cursor_left(),
            KeyCode::Right => self.move_cursor_right(),
            KeyCode::Up => self.move_cursor_up(),
            KeyCode::Down => self.move_cursor_down(),
            _ => {
                self.status_message = "Visual mode - ESC to return to Normal".to_owned();
                Ok(())
            },
        }
    }

    /// Handles key `code` in command mode (see `command_input`).
    fn handle_command_mode_input(&mut self, code: KeyCode) -> (r: EditorResult<KeyOutcome>)
        requires
            old(self).wf(),
        ensures
            final(self).wf(),
            (final(self)@, outcome_view(r)) == command_input(old(self)@, code),
    {
        match code {
            KeyCode::Esc => {
                match self.enter_normal_mode() {
                    Ok(()) => {},
                    Err(e) => {
                        return Err(e);
                    },
                }
                self.status_message = String::new();
                Ok(KeyOutcome::Continue)
            },
            KeyCode::Enter => {
                let o = self.execute_command();
                match o {
                    KeyOutcome::Continue => match self.enter_normal_mode() {
                        Ok(()) => Ok(KeyOutcome::Continue),
                        Err(e) => Err(e),
                    },
                    _ => Ok(o),
                }
            },
            KeyCode::Char(ch) => {
                string_push(&mut self.status_message, ch);
                Ok(KeyOutcome::Continue)
            },
            KeyCode::Backspace => {
                if self.status_message.as_str().len() > 1 {
                    let _ = string_pop(&mut self.status_message);
                }
                Ok(KeyOutcome::Continue)
            },
            _ => Ok(KeyOutcome::Continue),
        }
    }

    /// Handles key event `key` (see `key_outcome`). A `Write` outcome asks
    /// the caller to write the file and then call `finish_write`.
    pub fn handle_key_event(&mut self, key: KeyInput) -> (r: EditorResult<KeyOutcome>)
        requires
            old(self).wf(),
        ensures
            final(self).wf(),
            (final(self)@, outcome_view(r)) == key_outcome(old(self)@, key),
    {
        if key.kind == KeyKind::Release {
            return Ok(KeyOutcome::Continue);
        }
        let mode = match self.get_current_mode() {
            Ok(m) => m,
            Err(e) => {
                return Err(e);
            },
        };
        let result = match mode {
            EditMode::Normal => self.handle_normal_mode_input(key.code),
            EditMode::Insert => self.handle_insert_mode_input(key.code),
            EditMode::Visual => self.handle_visual_mode_input(key.code),
            EditMode::Command => {
                return self.handle_command_mode_input(key.code);
            },
        };
        match result {
            Ok(()) => Ok(KeyOutcome::Continue),
            Err(e) => Err(e),
        }
    }

    /// Finishes a command that asked for `write`: `outcome` says how the
    /// write went (see `write_done` and `write_failed`). The answer says
    /// whether the editor stops.
    pub fn finish_write(&mut self, kind: SaveKind, write: &FileWrite, outcome: Result<
        (),
        std::io::Error,
    >) -> (r: EditorResult<bool>)
        requires
            old(self).wf(),
        ensures
            final(self).wf(),
            outcome is Ok ==> (final(self)@, r) == write_done(old(self)@, kind, write@),
            outcome is Err ==> exists|t: Seq<char>| (final(self)@, r) == write_failed(old(self)@, t),
    {
        match outcome {
            Ok(()) => match kind {
                SaveKind::Save => {
                    self.record_save(write);
                    self.status_message = "File saved".to_owned();
                },
                SaveKind::SaveAndQuit => {
                    self.record_save(write);
                    return Ok(true);
                },
                SaveKind::SaveAs => {
                    self.record_save_as(write);
                    let mut status = "Saved as ".to_owned();
                    status.append(write.path.as_str());
                    self.status_message = status;
                },
            },
            Err(e) => {
                let err = EditorError::IoError(e);
                let text = err.debug_text();
                let ghost t = choose|t: Seq<char>| text@ == "IoError("@ + t + ")"@;
                let mut status = "Save failed: ".to_owned();
                status.append(text.as_str());
                self.status_message = status;
                let r = match self.enter_normal_mode() {
                    Ok(()) => Ok(false),
                    Err(e) => Err(e),
                };
                assert((self@, r) == write_failed(old(self)@, t));
                return r;
            },
        }
        match self.enter_normal_mode() {
            Ok(()) => Ok(false),
            Err(e) => Err(e),
        }
    }
}

} // verus!
