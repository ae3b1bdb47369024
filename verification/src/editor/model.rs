//! The model of an editor: its state as users see it, and what each
//! operation on the current buffer does to it.
use vstd::prelude::*;
use crate::client::editor_client::{
    ClientError, ClientResult, EditorClientState, client_delete_char, client_insert_char,
    client_move, client_set_cursor, client_set_mode,
};
use crate::editor::error::{EditorError, EditorResult};
use crate::rope_text::line_of;
use crate::server::editor_server::{CursorMove, cursors_in_text};
use crate::server::events::{BufferId, EditMode, ServerError};
use crate::syntax::HighlighterState;
use crate::text::{debug_quoted, decimal, text_lines};
use crate::text_buffer::{TextBufferState, column};

verus! {

/// A client answer as the editor passes it on.
pub open spec fn lift_client<T>(r: ClientResult<T>) -> EditorResult<T> {
    match r {
        Ok(v) => Ok(v),
        Err(e) => Err(EditorError::ClientError(e)),
    }
}

/// The error for a current buffer that the server does not hold.
pub open spec fn missing_buffer() -> EditorError {
    EditorError::ClientError(ClientError::ServerError(ServerError::BufferNotFound))
}

/// The state of an `Editor` as its users see it.
pub struct EditorState {
    pub client: EditorClientState,
    pub current_buffer: Option<BufferId>,
    pub current_file: Option<Seq<char>>,
    pub modified: bool,
    pub status: Seq<char>,
    pub viewport_size: usize,
    pub scroll_offset: usize,
    pub highlighter: HighlighterState,
}

/// Whether the server of `e` holds buffer `id`.
pub open spec fn holds(e: EditorState, id: BufferId) -> bool {
    e.client.server.buffers.contains_key(id.0)
}

/// The state of buffer `id` in the server of `e`.
pub open spec fn buffer_of(e: EditorState, id: BufferId) -> TextBufferState {
    e.client.server.buffers[id.0].state
}

/// Why an operation on the current buffer fails before it starts: there is
/// no current buffer, or the server does not hold it.
pub open spec fn current_error(e: EditorState) -> Option<EditorError> {
    match e.current_buffer {
        None => Some(EditorError::NoActiveBuffer),
        Some(id) => if holds(e, id) {
            None
        } else {
            Some(missing_buffer())
        },
    }
}

/// The state of the current buffer (meaningful when `current_error` is
/// `None`).
pub open spec fn current(e: EditorState) -> TextBufferState {
    buffer_of(e, e.current_buffer->0)
}

/// A request that the editor passes on to its client for the current
/// buffer.
pub enum BufferRequest {
    SetCursor(usize),
    Move(CursorMove),
    SetMode(EditMode),
}

/// The client state and answer after request `q` for buffer `id`.
pub open spec fn client_request(c: EditorClientState, id: BufferId, q: BufferRequest) -> (
    EditorClientState,
    ClientResult<()>,
) {
    match q {
        BufferRequest::SetCursor(p) => client_set_cursor(c, id, p),
        BufferRequest::Move(m) => client_move(c, id, m),
        BufferRequest::SetMode(mode) => client_set_mode(c, id, mode),
    }
}

/// The state and answer after request `q` for the current buffer; without
/// a current buffer nothing changes.
pub open spec fn on_current(e: EditorState, q: BufferRequest) -> (EditorState, EditorResult<()>) {
    match e.current_buffer {
        None => (e, Err(EditorError::NoActiveBuffer)),
        Some(id) => {
            let out = client_request(e.client, id, q);
            (EditorState { client: out.0, ..e }, lift_client(out.1))
        },
    }
}

/// The state and answer after an edit of buffer `id` whose client outcome
/// is `out`: a refused edit is passed on; after an accepted one the text
/// counts as modified, and the buffer is read again for highlighting.
pub open spec fn after_edit(e: EditorState, id: BufferId, out: (EditorClientState, ClientResult<()>)) -> (
    EditorState,
    EditorResult<()>,
) {
    match out.1 {
        Err(err) => (EditorState { client: out.0, ..e }, Err(EditorError::ClientError(err))),
        Ok(_) => {
            let e2 = EditorState { client: out.0, modified: true, ..e };
            (
                e2,
                if holds(e2, id) {
                    Ok(())
                } else {
                    Err(missing_buffer())
                },
            )
        },
    }
}

/// The state and answer after `ch` is typed at the cursor of the current
/// buffer.
pub open spec fn insert_at_cursor(e: EditorState, ch: char) -> (EditorState, EditorResult<()>) {
    match current_error(e) {
        Some(err) => (e, Err(err)),
        None => {
            let id = e.current_buffer->0;
            after_edit(e, id, client_insert_char(e.client, id, current(e).cursor as usize, ch))
        },
    }
}

/// The state and answer after the character at the cursor of the current
/// buffer is deleted.
pub open spec fn delete_at_cursor(e: EditorState) -> (EditorState, EditorResult<()>) {
    match current_error(e) {
        Some(err) => (e, Err(err)),
        None => {
            let id = e.current_buffer->0;
            after_edit(e, id, client_delete_char(e.client, id, current(e).cursor as usize))
        },
    }
}

/// The client state and answer after each character of `text`, in order,
/// is typed at the cursor of buffer `id`; the first refusal stops it.
pub open spec fn insert_each(c: EditorClientState, id: BufferId, text: Seq<char>) -> (
    EditorClientState,
    ClientResult<()>,
)
    decreases text.len(),
{
    if text.len() == 0 {
        (c, Ok(()))
    } else if !c.server.buffers.contains_key(id.0) {
        (c, Err(ClientError::ServerError(ServerError::BufferNotFound)))
    } else {
        let out = client_insert_char(c, id, c.server.buffers[id.0].state.cursor as usize, text[0]);
        if out.1 is Err {
            out
        } else {
            insert_each(out.0, id, text.drop_first())
        }
    }
}

/// The state and answer after `text` is typed at the cursor of the current
/// buffer.
pub open spec fn insert_text(e: EditorState, text: Seq<char>) -> (EditorState, EditorResult<()>) {
    match e.current_buffer {
        None => (e, Err(EditorError::NoActiveBuffer)),
        Some(id) => after_edit(e, id, insert_each(e.client, id, text)),
    }
}

/// A file to write: its path and the text to put in it.
pub struct FileWrite {
    pub path: String,
    pub content: String,
}

/// A file write with its texts taken as character sequences.
pub struct FileWriteView {
    pub path: Seq<char>,
    pub content: Seq<char>,
}

impl View for FileWrite {
    type V = FileWriteView;

    open spec fn view(&self) -> FileWriteView {
        FileWriteView { path: self.path@, content: self.content@ }
    }
}

/// What saving the current buffer to its file writes, or why it cannot.
pub open spec fn save_request(e: EditorState) -> EditorResult<FileWriteView> {
    match (e.current_file, e.current_buffer) {
        (Some(path), Some(id)) => if holds(e, id) {
            Ok(FileWriteView { path, content: buffer_of(e, id).content })
        } else {
            Err(missing_buffer())
        },
        (None, Some(_)) => Err(EditorError::NoFilePath),
        (_, None) => Err(EditorError::NoActiveBuffer),
    }
}

/// What saving the current buffer to `path` writes, or why it cannot.
pub open spec fn save_as_request(e: EditorState, path: Seq<char>) -> EditorResult<FileWriteView> {
    match current_error(e) {
        Some(err) => Err(err),
        None => Ok(FileWriteView { path, content: current(e).content }),
    }
}

/// The lines of the current text that the viewport shows: at most
/// `viewport_size` of them, from line `scroll_offset` on.
pub open spec fn visible_lines(content: Seq<char>, scroll: usize, viewport: usize) -> Seq<Seq<char>> {
    let lines = text_lines(content);
    let start = if scroll <= lines.len() {
        scroll as int
    } else {
        lines.len() as int
    };
    let rest = lines.skip(start);
    rest.take(
        if viewport <= rest.len() {
            viewport as int
        } else {
            rest.len() as int
        },
    )
}

/// The line of the cursor of buffer state `b`.
pub open spec fn cursor_row(b: TextBufferState) -> nat {
    line_of(b.content, b.cursor as int)
}

/// The column of the cursor of buffer state `b`.
pub open spec fn cursor_col(b: TextBufferState) -> int {
    column(b.content, b.cursor)
}

/// The scroll offset that brings line `row` into a viewport of `size`
/// lines scrolled to `offset`: scrolled down so that `row` is the last line
/// shown when it lies below, and up to `row` when it lies above.
pub open spec fn scroll_for_row(row: nat, offset: usize, size: usize) -> nat {
    let down = if row >= offset + size {
        (row - size + 1) as nat
    } else {
        offset as nat
    };
    if row < down {
        row
    } else {
        down
    }
}

/// The label of a mode on the status line.
pub open spec fn mode_label(m: EditMode) -> Seq<char> {
    match m {
        EditMode::Normal => "NORMAL"@,
        EditMode::Insert => "INSERT"@,
        EditMode::Visual => "VISUAL"@,
        EditMode::Command => "COMMAND"@,
    }
}

/// The key help shown for a mode.
pub open spec fn help_text(m: EditMode) -> Seq<char> {
    match m {
        EditMode::Normal => "i=Insert, v=Visual, :=Command"@,
        EditMode::Insert => "ESC=Normal"@,
        EditMode::Visual => "ESC=Normal"@,
        EditMode::Command => "ESC=Normal, Enter=Execute"@,
    }
}

/// The status line of state `e` (whose current buffer the server holds).
pub open spec fn status_line(e: EditorState) -> Seq<char> {
    let b = current(e);
    "Cursor: ("@ + decimal(cursor_row(b) + 1) + ":"@ + decimal((cursor_col(b) + 1) as nat)
        + ") | Mode: "@ + debug_quoted(mode_label(b.mode)) + " | Status: "@ + e.status
}

/// The file part of the first status line.
pub open spec fn file_info(e: EditorState) -> Seq<char> {
    let marker = if e.modified {
        " [+]"@
    } else {
        Seq::empty()
    };
    match e.current_file {
        Some(p) => " | "@ + p + marker,
        None => " | [No Name]"@ + marker,
    }
}

/// The position and help line under the status line.
pub open spec fn help_line(e: EditorState) -> Seq<char> {
    let b = current(e);
    decimal(cursor_row(b) + 1) + ":"@ + decimal((cursor_col(b) + 1) as nat) + " | "@ + help_text(
        b.mode,
    )
}

/// The status message an editor starts with.
pub open spec fn greeting() -> Seq<char> {
    "Hello from rust-text-editor"@
}

/// Typing each character of `text` at the cursor of buffer `id` puts
/// `text` at the cursor and moves the cursor past it (for texts that the
/// server's `i32` positions can address).
proof fn lemma_insert_each(c: EditorClientState, id: BufferId, text: Seq<char>)
    requires
        c.server.buffers.contains_key(id.0),
        c.server.buffers[id.0].state.cursor <= c.server.buffers[id.0].state.content.len(),
        c.server.buffers[id.0].state.content.len() + text.len() <= i32::MAX,
    ensures
        ({
            let out = insert_each(c, id, text);
            let b = c.server.buffers[id.0].state;
            &&& out.1 is Ok
            &&& out.0.server.buffers.contains_key(id.0)
            &&& out.0.server.buffers[id.0].state.content == b.content.take(b.cursor as int) + text
                + b.content.skip(b.cursor as int)
            &&& out.0.server.buffers[id.0].state.cursor == b.cursor + text.len()
        }),
    decreases text.len(),
{
    let b = c.server.buffers[id.0].state;
    if text.len() == 0 {
        assert(b.content.take(b.cursor as int) + text + b.content.skip(b.cursor as int)
            =~= b.content);
    } else {
        let out1 = client_insert_char(c, id, b.cursor as usize, text[0]);
        let b1 = out1.0.server.buffers[id.0].state;
        assert(b1.content == b.content.insert(b.cursor as int, text[0]));
        assert(b1.cursor == b.cursor + 1);
        lemma_insert_each(out1.0, id, text.drop_first());
        assert(b1.content.take(b1.cursor as int) =~= b.content.take(b.cursor as int).push(
            text[0],
        ));
        assert(b1.content.skip(b1.cursor as int) =~= b.content.skip(b.cursor as int));
        assert(b.content.take(b.cursor as int).push(text[0]) + text.drop_first() =~= b.content.take(
            b.cursor as int,
        ) + text);
    }
}

/// Typing a text at the cursor of the current buffer puts it at the
/// cursor, moves the cursor past it, and marks the text modified (for texts
/// that the server's `i32` positions can address).
pub proof fn typed_text_appears_at_the_cursor(e: EditorState, text: Seq<char>)
    requires
        current_error(e) is None,
        cursors_in_text(e.client.server),
        current(e).content.len() + text.len() <= i32::MAX,
    ensures
        insert_text(e, text).1 is Ok,
        insert_text(e, text).0.modified,
        current(insert_text(e, text).0).content == current(e).content.take(current(e).cursor as int)
            + text + current(e).content.skip(current(e).cursor as int),
        current(insert_text(e, text).0).cursor == current(e).cursor + text.len(),
{
    let id = e.current_buffer->0;
    assert(e.client.server.buffers.contains_key(id.0));
    lemma_insert_each(e.client, id, text);
}

/// An edit that the server accepts marks the text as modified.
pub proof fn accepted_edits_mark_modified(e: EditorState, ch: char, text: Seq<char>)
    ensures
        insert_at_cursor(e, ch).1 is Ok ==> insert_at_cursor(e, ch).0.modified,
        delete_at_cursor(e).1 is Ok ==> delete_at_cursor(e).0.modified,
        insert_text(e, text).1 is Ok ==> insert_text(e, text).0.modified,
{
}

/// After scrolling for the cursor, a viewport of at least one line shows
/// the cursor's line; a line already in view leaves the offset as it was.
pub proof fn scrolling_shows_the_cursor(row: nat, offset: usize, size: usize)
    requires
        size > 0,
    ensures
        scroll_for_row(row, offset, size) <= row < scroll_for_row(row, offset, size) + size,
        offset <= row < offset + size ==> scroll_for_row(row, offset, size) == offset,
{
}

} // verus!
