//! Key presses and commands: what each key does in each mode, what the
//! command line runs, and how a file write that a command asks for ends.
use vstd::prelude::*;
use vstd::utf8::encode_utf8;
use crate::editor::error::{EditorError, EditorResult, error_debug};
use crate::editor::model::{
    BufferRequest, EditorState, FileWrite, FileWriteView, current, current_error,
    delete_at_cursor, insert_at_cursor, on_current, save_as_request, save_request,
};
use crate::server::editor_server::{CursorMove, cursors_in_text};
use crate::rope_text::{line_count, line_of};
use crate::server::events::EditMode;
use crate::text::{starts_with, trim};
use crate::text_buffer::vertical_moves_change_line_by_one;

verus! {

/// The kind of a key event.
#[derive(Clone, Copy, Debug, PartialEq, Eq, Structural)]
pub enum KeyKind {
    Press,
    Repeat,
    Release,
}

/// The key of a key event, as far as the editor tells keys apart.
#[derive(Clone, Copy, Debug, PartialEq, Eq, Structural)]
pub enum KeyCode {
    Char(char),
    Esc,
    Enter,
    Backspace,
    Left,
    Right,
    Up,
    Down,
    Other,
}

/// A key event.
#[derive(Clone, Copy, Debug, PartialEq, Eq, Structural)]
pub struct KeyInput {
    pub kind: KeyKind,
    pub code: KeyCode,
}

/// Which command asked for a file write, and so what follows it.
#[derive(Clone, Copy, Debug, PartialEq, Eq, Structural)]
pub enum SaveKind {
    Save,
    SaveAndQuit,
    SaveAs,
}

/// What the caller does after a key press: go on, stop editing, or write
/// a file and report back with `finish_write`.
pub enum KeyOutcome {
    Continue,
    Exit,
    Write(SaveKind, FileWrite),
}

/// A key outcome with the file write taken as character sequences.
pub enum KeyOutcomeView {
    Continue,
    Exit,
    Write(SaveKind, FileWriteView),
}

impl View for KeyOutcome {
    type V = KeyOutcomeView;

    open spec fn view(&self) -> KeyOutcomeView {
        match self {
            KeyOutcome::Continue => KeyOutcomeView::Continue,
            KeyOutcome::Exit => KeyOutcomeView::Exit,
            KeyOutcome::Write(k, w) => KeyOutcomeView::Write(*k, w@),
        }
    }
}

/// A key answer with its outcome taken by its view.
pub open spec fn outcome_view(r: EditorResult<KeyOutcome>) -> EditorResult<KeyOutcomeView> {
    match r {
        Ok(o) => Ok(o@),
        Err(e) => Err(e),
    }
}

/// `out`, with the status message set to `status` if it succeeded.
pub open spec fn then_status(out: (EditorState, EditorResult<()>), status: Seq<char>) -> (
    EditorState,
    EditorResult<()>,
) {
    match out.1 {
        Ok(_) => (EditorState { status, ..out.0 }, out.1),
        Err(_) => out,
    }
}

/// `out`, answering `b` if it succeeded.
pub open spec fn then_answer<T>(out: (EditorState, EditorResult<()>), b: T) -> (
    EditorState,
    EditorResult<T>,
) {
    (
        out.0,
        match out.1 {
            Ok(_) => Ok(b),
            Err(e) => Err(e),
        },
    )
}

/// The cursor move of an arrow key.
pub open spec fn arrow_move(code: KeyCode) -> Option<CursorMove> {
    match code {
        KeyCode::Left => Some(CursorMove::Left),
        KeyCode::Right => Some(CursorMove::Right),
        KeyCode::Up => Some(CursorMove::Up),
        KeyCode::Down => Some(CursorMove::Down),
        _ => None,
    }
}

/// The cursor move of a `h`, `j`, `k` or `l` key.
pub open spec fn letter_move(ch: char) -> Option<CursorMove> {
    if ch == 'h' {
        Some(CursorMove::Left)
    } else if ch == 'j' {
        Some(CursorMove::Down)
    } else if ch == 'k' {
        Some(CursorMove::Up)
    } else if ch == 'l' {
        Some(CursorMove::Right)
    } else {
        None
    }
}

/// The state and answer after `key` in normal mode: `i` and `v` switch to
/// insert and visual mode, `h`, `j`, `k`, `l` move the cursor, and other
/// keys do nothing.
pub open spec fn normal_key(e: EditorState, key: char) -> (EditorState, EditorResult<()>) {
    if key == 'i' {
        on_current(e, BufferRequest::SetMode(EditMode::Insert))
    } else if key == 'v' {
        on_current(e, BufferRequest::SetMode(EditMode::Visual))
    } else {
        match letter_move(key) {
            Some(m) => on_current(e, BufferRequest::Move(m)),
            None => (e, Ok(())),
        }
    }
}

/// The state and answer after a backspace in insert mode: the cursor
/// moves left, then the character at it is deleted.
pub open spec fn backspace(e: EditorState) -> (EditorState, EditorResult<()>) {
    let out = on_current(e, BufferRequest::Move(CursorMove::Left));
    if out.1 is Err {
        out
    } else {
        delete_at_cursor(out.0)
    }
}

/// The hint shown for keys that visual mode does not use.
pub open spec fn visual_hint() -> Seq<char> {
    "Visual mode - ESC to return to Normal"@
}

/// The warning that `:q` gives for unsaved changes.
pub open spec fn quit_warning() -> Seq<char> {
    "File modified! Use :q! to quit without saving"@
}

/// The state and answer after key `code` in normal mode.
pub open spec fn normal_input(e: EditorState, code: KeyCode) -> (EditorState, EditorResult<()>) {
    match code {
        KeyCode::Char(ch) => if ch == ':' {
            then_status(on_current(e, BufferRequest::SetMode(EditMode::Command)), ":"@)
        } else {
            let out = normal_key(e, ch);
            if out.1 is Ok && !starts_with(out.0.status, "File modified!"@) {
                then_status(out, Seq::empty())
            } else {
                out
            }
        },
        _ => match arrow_move(code) {
            Some(m) => on_current(e, BufferRequest::Move(m)),
            None => (e, Ok(())),
        },
    }
}

/// The state and answer after key `code` in insert mode.
pub open spec fn insert_input(e: EditorState, code: KeyCode) -> (EditorState, EditorResult<()>) {
    match code {
        KeyCode::Esc => then_status(
            on_current(e, BufferRequest::SetMode(EditMode::Normal)),
            Seq::empty(),
        ),
        KeyCode::Char(ch) => insert_at_cursor(e, ch),
        KeyCode::Backspace => backspace(e),
        KeyCode::Enter => insert_at_cursor(e, '\n'),
        _ => match arrow_move(code) {
            Some(m) => on_current(e, BufferRequest::Move(m)),
            None => (e, Ok(())),
        },
    }
}

/// The state and answer after key `code` in visual mode.
pub open spec fn visual_input(e: EditorState, code: KeyCode) -> (EditorState, EditorResult<()>) {
    let hint = (EditorState { status: visual_hint(), ..e }, Ok(()));
    match code {
        KeyCode::Esc => then_status(
            on_current(e, BufferRequest::SetMode(EditMode::Normal)),
            Seq::empty(),
        ),
        KeyCode::Char(ch) => match letter_move(ch) {
            Some(m) => on_current(e, BufferRequest::Move(m)),
            None => hint,
        },
        _ => match arrow_move(code) {
            Some(m) => on_current(e, BufferRequest::Move(m)),
            None => hint,
        },
    }
}

/// `s` without its leading colons: the command typed on the status line.
pub open spec fn command_text(s: Seq<char>) -> Seq<char>
    decreases s.len(),
{
    if s.len() > 0 && s[0] == ':' {
        command_text(s.drop_first())
    } else {
        s
    }
}

/// The state after a save that could not start because of `err`.
pub open spec fn save_failed(e: EditorState, err: EditorError) -> EditorState {
    EditorState { status: "Save failed: "@ + error_debug(err)->0, ..e }
}

/// The state and outcome of running the command on the status line:
/// `q` stops unless the text is modified, `q!` stops, `w` and `wq` write
/// the file, `w NAME` writes to `NAME`, and anything else is unknown.
pub open spec fn execute(e: EditorState) -> (EditorState, KeyOutcomeView) {
    let cmd = command_text(e.status);
    if cmd == "q"@ {
        if e.modified {
            (EditorState { status: quit_warning(), ..e }, KeyOutcomeView::Continue)
        } else {
            (e, KeyOutcomeView::Exit)
        }
    } else if cmd == "q!"@ {
        (e, KeyOutcomeView::Exit)
    } else if cmd == "w"@ || cmd == "wq"@ {
        match save_request(e) {
            Err(err) => (save_failed(e, err), KeyOutcomeView::Continue),
            Ok(w) => (
                e,
                KeyOutcomeView::Write(
                    if cmd == "w"@ {
                        SaveKind::Save
                    } else {
                        SaveKind::SaveAndQuit
                    },
                    w,
                ),
            ),
        }
    } else if starts_with(cmd, "w "@) {
        match save_as_request(e, trim(cmd.skip(2))) {
            Err(err) => (save_failed(e, err), KeyOutcomeView::Continue),
            Ok(w) => (e, KeyOutcomeView::Write(SaveKind::SaveAs, w)),
        }
    } else {
        (EditorState { status: "Unknown command: "@ + cmd, ..e }, KeyOutcomeView::Continue)
    }
}

/// The state and answer after key `code` in command mode: characters
/// extend the command, backspace shortens it while it is longer than one
/// byte, escape leaves the mode, and enter runs the command and, unless it
/// stops the editor or writes a file, goes back to normal mode.
pub open spec fn command_input(e: EditorState, code: KeyCode) -> (
    EditorState,
    EditorResult<KeyOutcomeView>,
) {
    match code {
        KeyCode::Esc => then_answer(
            then_status(on_current(e, BufferRequest::SetMode(EditMode::Normal)), Seq::empty()),
            KeyOutcomeView::Continue,
        ),
        KeyCode::Enter => {
            let (e1, o) = execute(e);
            if o is Continue {
                then_answer(
                    on_current(e1, BufferRequest::SetMode(EditMode::Normal)),
                    KeyOutcomeView::Continue,
                )
            } else {
                (e1, Ok(o))
            }
        },
        KeyCode::Char(ch) => (
            EditorState { status: e.status.push(ch), ..e },
            Ok(KeyOutcomeView::Continue),
        ),
        KeyCode::Backspace => (
            if encode_utf8(e.status).len() as usize > 1 {
                EditorState { status: e.status.drop_last(), ..e }
            } else {
                e
            },
            Ok(KeyOutcomeView::Continue),
        ),
        _ => (e, Ok(KeyOutcomeView::Continue)),
    }
}

/// The state and answer after key event `k`: releases are ignored, and the
/// mode of the current buffer decides what a press does.
pub open spec fn key_outcome(e: EditorState, k: KeyInput) -> (
    EditorState,
    EditorResult<KeyOutcomeView>,
) {
    if k.kind == KeyKind::Release {
        (e, Ok(KeyOutcomeView::Continue))
    } else {
        match current_error(e) {
            Some(err) => (e, Err(err)),
            None => match current(e).mode {
                EditMode::Normal => then_answer(normal_input(e, k.code), KeyOutcomeView::Continue),
                EditMode::Insert => then_answer(insert_input(e, k.code), KeyOutcomeView::Continue),
                EditMode::Visual => then_answer(visual_input(e, k.code), KeyOutcomeView::Continue),
                EditMode::Command => command_input(e, k.code),
            },
        }
    }
}

/// The state and answer after the write of `w` asked for by a `kind`
/// command went to disk.
pub open spec fn write_done(e: EditorState, kind: SaveKind, w: FileWriteView) -> (
    EditorState,
    EditorResult<bool>,
) {
    match kind {
        SaveKind::Save => then_answer(
            on_current(
                EditorState { modified: false, status: "File saved"@, ..e },
                BufferRequest::SetMode(EditMode::Normal),
            ),
            false,
        ),
        SaveKind::SaveAndQuit => (
            EditorState { modified: false, status: "Saved: "@ + w.path, ..e },
            Ok(true),
        ),
        SaveKind::SaveAs => then_answer(
            on_current(
                EditorState {
                    current_file: Some(w.path),
                    modified: false,
                    status: "Saved as "@ + w.path,
                    ..e
                },
                BufferRequest::SetMode(EditMode::Normal),
            ),
            false,
        ),
    }
}

/// The state and answer after a write failed with an I/O error that `{:?}`
/// writes as `t`.
pub open spec fn write_failed(e: EditorState, t: Seq<char>) -> (EditorState, EditorResult<bool>) {
    then_answer(
        on_current(
            EditorState { status: "Save failed: "@ + ("IoError("@ + t + ")"@), ..e },
            BufferRequest::SetMode(EditMode::Normal),
        ),
        false,
    )
}

/// A write that went to disk leaves the text counted as saved.
pub proof fn written_text_is_unmodified(e: EditorState, kind: SaveKind, w: FileWriteView)
    ensures
        !write_done(e, kind, w).0.modified,
{
}

/// A command stops the editor only when it is `q!`, or `q` with nothing
/// modified: unsaved changes are never dropped by `:q`.
pub proof fn quitting_keeps_unsaved_changes(e: EditorState)
    ensures
        execute(e).1 is Exit ==> command_text(e.status) == "q!"@ || (command_text(e.status)
            == "q"@ && !e.modified),
{
}

/// A file write that a command asks for carries the text of the current
/// buffer, and `w` and `wq` write to the editor's own file.
pub proof fn writes_carry_the_buffer_text(e: EditorState)
    ensures
        execute(e).1 matches KeyOutcomeView::Write(kind, w) ==> current_error(e) is None
            && w.content == current(e).content && (kind != SaveKind::SaveAs ==> e.current_file
            == Some(w.path)),
{
}

/// A key release changes nothing.
pub proof fn releases_are_ignored(e: EditorState, code: KeyCode)
    ensures
        key_outcome(e, KeyInput { kind: KeyKind::Release, code }) == (
            e,
            Ok::<KeyOutcomeView, EditorError>(KeyOutcomeView::Continue),
        ),
{
}

/// Whether `out` is a vertical cursor move of the current buffer of `e`:
/// it succeeds, keeps the buffer and its text, and puts the cursor on the
/// next line (`down`) or the line before, or leaves it on its line when
/// that is the last (first) one.
pub open spec fn moves_one_line(e: EditorState, out: (EditorState, EditorResult<()>), down: bool) -> bool {
    let before = current(e);
    let after = current(out.0);
    let l = line_of(before.content, before.cursor as int);
    &&& out.1 is Ok
    &&& out.0.current_buffer == e.current_buffer
    &&& after.content == before.content
    &&& line_of(after.content, after.cursor as int) == if down {
        if l + 1 < line_count(before.content) {
            l + 1
        } else {
            l
        }
    } else {
        if l > 0 {
            (l - 1) as nat
        } else {
            l
        }
    }
}

/// A move of the current buffer's cursor down (or up) is a move of one line.
proof fn lemma_vertical_move(e: EditorState, down: bool)
    requires
        current_error(e) is None,
        cursors_in_text(e.client.server),
    ensures
        moves_one_line(
            e,
            on_current(
                e,
                BufferRequest::Move(
                    if down {
                        CursorMove::Down
                    } else {
                        CursorMove::Up
                    },
                ),
            ),
            down,
        ),
{
    let id = e.current_buffer->0;
    assert(e.client.server.buffers.contains_key(id.0));
    vertical_moves_change_line_by_one(current(e));
}

/// The vertical cursor keys move the cursor by one line and leave the text
/// alone: `j` (in normal and visual mode) and the Down arrow (in every
/// mode) go to the next line, `k` and the Up arrow to the line before; on
/// the last (first) line the cursor stays on it.
pub proof fn vertical_keys_move_one_line(e: EditorState)
    requires
        current_error(e) is None,
        cursors_in_text(e.client.server),
    ensures
        moves_one_line(e, normal_key(e, 'j'), true),
        moves_one_line(e, normal_key(e, 'k'), false),
        moves_one_line(e, normal_input(e, KeyCode::Char('j')), true),
        moves_one_line(e, normal_input(e, KeyCode::Char('k')), false),
        moves_one_line(e, normal_input(e, KeyCode::Down), true),
        moves_one_line(e, normal_input(e, KeyCode::Up), false),
        moves_one_line(e, insert_input(e, KeyCode::Down), true),
        moves_one_line(e, insert_input(e, KeyCode::Up), false),
        moves_one_line(e, visual_input(e, KeyCode::Char('j')), true),
        moves_one_line(e, visual_input(e, KeyCode::Char('k')), false),
        moves_one_line(e, visual_input(e, KeyCode::Down), true),
        moves_one_line(e, visual_input(e, KeyCode::Up), false),
{
    lemma_vertical_move(e, true);
    lemma_vertical_move(e, false);
}

/// Whether `out` moves the cursor of the current buffer of `e` one
/// character right (`right`) or left, unless it is at the end (start), and
/// succeeds keeping the buffer and its text.
pub open spec fn moves_one_character(e: EditorState, out: (EditorState, EditorResult<()>), right: bool) -> bool {
    let before = current(e);
    let after = current(out.0);
    &&& out.1 is Ok
    &&& out.0.current_buffer == e.current_buffer
    &&& after.content == before.content
    &&& after.cursor == if right {
        if before.cursor < before.content.len() {
            before.cursor + 1
        } else {
            before.cursor
        }
    } else {
        if before.cursor > 0 {
            (before.cursor - 1) as nat
        } else {
            before.cursor
        }
    }
}

/// The horizontal cursor keys move the cursor by one character and leave
/// the text alone: `l` (in normal and visual mode) and the Right arrow (in
/// every mode) move right, `h` and the Left arrow move left.
pub proof fn horizontal_keys_move_one_character(e: EditorState)
    requires
        current_error(e) is None,
    ensures
        moves_one_character(e, normal_key(e, 'l'), true),
        moves_one_character(e, normal_key(e, 'h'), false),
        moves_one_character(e, normal_input(e, KeyCode::Right), true),
        moves_one_character(e, normal_input(e, KeyCode::Left), false),
        moves_one_character(e, insert_input(e, KeyCode::Right), true),
        moves_one_character(e, insert_input(e, KeyCode::Left), false),
        moves_one_character(e, visual_input(e, KeyCode::Char('l')), true),
        moves_one_character(e, visual_input(e, KeyCode::Char('h')), false),
        moves_one_character(e, visual_input(e, KeyCode::Right), true),
        moves_one_character(e, visual_input(e, KeyCode::Left), false),
{
    let id = e.current_buffer->0;
    assert(e.client.server.buffers.contains_key(id.0));
}

/// The mode keys switch the current buffer's mode: in normal mode `i`
/// enters insert mode, `v` visual mode and `:` command mode (with the
/// status line showing `:`); escape leaves insert, visual and command mode
/// for normal mode and clears the status line. The text does not change.
pub proof fn mode_keys_switch_modes(e: EditorState)
    requires
        current_error(e) is None,
    ensures
        normal_key(e, 'i').1 is Ok && current(normal_key(e, 'i').0).mode == EditMode::Insert,
        normal_key(e, 'v').1 is Ok && current(normal_key(e, 'v').0).mode == EditMode::Visual,
        normal_input(e, KeyCode::Char(':')).1 is Ok && current(
            normal_input(e, KeyCode::Char(':')).0,
        ).mode == EditMode::Command && normal_input(e, KeyCode::Char(':')).0.status == ":"@,
        insert_input(e, KeyCode::Esc).1 is Ok && current(insert_input(e, KeyCode::Esc).0).mode
            == EditMode::Normal && insert_input(e, KeyCode::Esc).0.status.len() == 0,
        visual_input(e, KeyCode::Esc).1 is Ok && current(visual_input(e, KeyCode::Esc).0).mode
            == EditMode::Normal && visual_input(e, KeyCode::Esc).0.status.len() == 0,
        command_input(e, KeyCode::Esc).1 is Ok && current(command_input(e, KeyCode::Esc).0).mode
            == EditMode::Normal && command_input(e, KeyCode::Esc).0.status.len() == 0,
        current(normal_key(e, 'i').0).content == current(e).content,
        current(insert_input(e, KeyCode::Esc).0).content == current(e).content,
{
    let id = e.current_buffer->0;
    assert(e.client.server.buffers.contains_key(id.0));
}

/// Typing a character in insert mode and then pressing backspace gives
/// back the text and the cursor (for texts that the server's `i32`
/// positions can address).
pub proof fn typing_then_backspace_restores(e: EditorState, ch: char)
    requires
        current_error(e) is None,
        cursors_in_text(e.client.server),
        current(e).content.len() < i32::MAX,
    ensures
        insert_at_cursor(e, ch).1 is Ok,
        backspace(insert_at_cursor(e, ch).0).1 is Ok,
        current(backspace(insert_at_cursor(e, ch).0).0).content == current(e).content,
        current(backspace(insert_at_cursor(e, ch).0).0).cursor == current(e).cursor,
{
    let id = e.current_buffer->0;
    let b = current(e);
    assert(e.client.server.buffers.contains_key(id.0));
    let e1 = insert_at_cursor(e, ch).0;
    assert(current(e1).content == b.content.insert(b.cursor as int, ch));
    assert(current(e1).cursor == b.cursor + 1);
    let e2 = on_current(e1, BufferRequest::Move(CursorMove::Left)).0;
    assert(current(e2).cursor == b.cursor);
    assert(current(e2).content == current(e1).content);
    assert(current(e2).content.remove(b.cursor as int) =~= b.content) by {
        assert(b.content.insert(b.cursor as int, ch).remove(b.cursor as int) =~= b.content);
    }
}

} // verus!
