//! A client of the editor server: it owns a server, is connected to it, and
//! keeps the list of buffers it created.
use vstd::prelude::*;
use crate::server::editor_server::{
    CursorMove, EditorServer, ServerState, cursors_in_text, delete_char_outcome, initial_buffer,
    insert_char_outcome, move_cursor_outcome, set_cursor_outcome, set_mode_outcome,
    with_new_buffer,
};
use crate::server::events::{BufferId, ClientId, EditMode, ServerError, ServerResult};
use crate::server::server_client::{ClientState, empty_client};
use crate::text_buffer::column;
use crate::rope_text::line_of;

verus! {

/// What can go wrong in a client request.
#[derive(Debug)]
pub enum ClientError {
    ServerError(ServerError),
    BufferNotFound,
}

impl From<ServerError> for ClientError {
    fn from(err: ServerError) -> (r: ClientError) {
        ClientError::ServerError(err)
    }
}

impl vstd::std_specs::convert::FromSpecImpl<ServerError> for ClientError {
    open spec fn obeys_from_spec() -> bool {
        true
    }

    open spec fn from_spec(v: ServerError) -> ClientError {
        ClientError::ServerError(v)
    }
}

/// The result of a client request.
pub type ClientResult<T> = Result<T, ClientError>;

/// A server answer as the client passes it on.
pub open spec fn lift<T>(r: ServerResult<T>) -> ClientResult<T> {
    match r {
        Ok(v) => Ok(v),
        Err(e) => Err(ClientError::ServerError(e)),
    }
}

/// The state of an `EditorClient`.
pub struct EditorClientState {
    pub server: ServerState,
    pub client_id: ClientId,
    pub active_buffers: Seq<BufferId>,
}

/// The client state after its server went through `outcome`, and the answer
/// passed on.
pub open spec fn after_server(c: EditorClientState, outcome: (ServerState, ServerResult<()>)) -> (
    EditorClientState,
    ClientResult<()>,
) {
    (EditorClientState { server: outcome.0, ..c }, lift(outcome.1))
}

/// The answer for a position that does not fit the server's `i32` positions.
pub open spec fn position_too_large(c: EditorClientState) -> (EditorClientState, ClientResult<()>) {
    (c, Err(ClientError::ServerError(ServerError::InvalidOperation)))
}

/// The client state and answer after `ch` is put at `position` of buffer
/// `id`.
pub open spec fn client_insert_char(c: EditorClientState, id: BufferId, position: usize, ch: char) -> (
    EditorClientState,
    ClientResult<()>,
) {
    if position > i32::MAX {
        position_too_large(c)
    } else {
        after_server(c, insert_char_outcome(c.server, id, position as int, ch))
    }
}

/// The client state and answer after the character at `position` of buffer
/// `id` is deleted.
pub open spec fn client_delete_char(c: EditorClientState, id: BufferId, position: usize) -> (
    EditorClientState,
    ClientResult<()>,
) {
    if position > i32::MAX {
        position_too_large(c)
    } else {
        after_server(c, delete_char_outcome(c.server, id, position as int))
    }
}

/// The client state and answer after the cursor of buffer `id` is set to
/// `position`; the server gets at most `i32::MAX`, and puts a cursor past
/// the end of the text at its end.
pub open spec fn client_set_cursor(c: EditorClientState, id: BufferId, position: usize) -> (
    EditorClientState,
    ClientResult<()>,
) {
    let p = if position > i32::MAX {
        i32::MAX as int
    } else {
        position as int
    };
    after_server(c, set_cursor_outcome(c.server, id, p))
}

/// The client state and answer after the cursor of buffer `id` is moved by
/// `m`.
pub open spec fn client_move(c: EditorClientState, id: BufferId, m: CursorMove) -> (
    EditorClientState,
    ClientResult<()>,
) {
    after_server(c, move_cursor_outcome(c.server, id, m))
}

/// The client state and answer after the mode of buffer `id` is set.
pub open spec fn client_set_mode(c: EditorClientState, id: BufferId, mode: EditMode) -> (
    EditorClientState,
    ClientResult<()>,
) {
    after_server(c, set_mode_outcome(c.server, id, mode))
}

/// A client with its own server.
pub struct EditorClient {
    server: EditorServer,
    client_id: ClientId,
    active_buffers: Vec<BufferId>,
}

impl View for EditorClient {
    type V = EditorClientState;

    closed spec fn view(&self) -> EditorClientState {
        EditorClientState {
            server: self.server@,
            client_id: self.client_id,
            active_buffers: self.active_buffers@,
        }
    }
}

impl EditorClient {
    /// The server is well formed and the client is connected to it.
    pub closed spec fn wf(&self) -> bool {
        &&& self.server.wf()
        &&& self.server@.clients.contains_key(self.client_id.0)
    }

    /// In a well-formed client every cursor lies within its text.
    pub proof fn lemma_cursors_in_text(&self)
        requires
            self.wf(),
        ensures
            cursors_in_text(self@.server),
    {
        self.server.lemma_cursors_in_text();
    }

    /// A client connected to a new server of its own, with no buffers.
    pub fn new() -> (r: ClientResult<Self>)
        ensures
            r matches Ok(c) && c.wf() && c@.active_buffers == Seq::<BufferId>::empty()
                && c@.server.buffers.is_empty() && c@.server.clients == Map::<
                u128,
                ClientState,
            >::empty().insert(c@.client_id.0, empty_client()),
    {
        let mut server = EditorServer::new();
        let client_id = match server.connect_client() {
            Ok(id) => id,
            Err(e) => {
                return Err(ClientError::ServerError(e));
            },
        };
        Ok(Self { server, client_id, active_buffers: Vec::new() })
    }

    /// Creates a buffer on the server, empty or holding `content`, and
    /// records it.
    pub fn create_buffer(&mut self, content: Option<String>) -> (r: ClientResult<BufferId>)
        requires
            old(self).wf(),
        ensures
            final(self).wf(),
            r matches Ok(id) && final(self)@ == (EditorClientState {
                server: with_new_buffer(
                    old(self)@.server,
                    id,
                    old(self)@.client_id,
                    initial_buffer(content),
                ),
                active_buffers: old(self)@.active_buffers.push(id),
                ..old(self)@
            }),
    {
        match self.server.create_buffer(self.client_id, content) {
            Ok(id) => {
                self.active_buffers.push(id);
                Ok(id)
            },
            Err(e) => Err(ClientError::ServerError(e)),
        }
    }

    /// The text of buffer `buffer_id`.
    pub fn get_content(&self, buffer_id: BufferId) -> (r: ClientResult<String>)
        ensures
            !self@.server.buffers.contains_key(buffer_id.0) ==> r matches Err(
                ClientError::ServerError(ServerError::BufferNotFound),
            ),
            self@.server.buffers.contains_key(buffer_id.0) ==> (r matches Ok(s) && s@
                == self@.server.buffers[buffer_id.0].state.content),
    {
        match self.server.get_buffer_content(buffer_id) {
            Ok(s) => Ok(s),
            Err(e) => Err(ClientError::ServerError(e)),
        }
    }

    /// Puts `ch` at `position` of buffer `buffer_id` (see
    /// `insert_char_outcome`).
    pub fn insert_char(&mut self, buffer_id: BufferId, position: usize, ch: char) -> (r:
        ClientResult<()>)
        requires
            old(self).wf(),
        ensures
            final(self).wf(),
            (final(self)@, r) == client_insert_char(old(self)@, buffer_id, position, ch),
    {
        if position > i32::MAX as usize {
            return Err(ClientError::ServerError(ServerError::InvalidOperation));
        }
        match self.server.insert_char(buffer_id, position as i32, ch) {
            Ok(()) => Ok(()),
            Err(e) => Err(ClientError::ServerError(e)),
        }
    }

    /// Deletes the character at `position` of buffer `buffer_id` (see
    /// `delete_char_outcome`).
    pub fn delete_char(&mut self, buffer_id: BufferId, position: usize) -> (r: ClientResult<()>)
        requires
            old(self).wf(),
        ensures
            final(self).wf(),
            (final(self)@, r) == client_delete_char(old(self)@, buffer_id, position),
    {
        if position > i32::MAX as usize {
            return Err(ClientError::ServerError(ServerError::InvalidOperation));
        }
        match self.server.delete_char(buffer_id, position as i32) {
            Ok(()) => Ok(()),
            Err(e) => Err(ClientError::ServerError(e)),
        }
    }

    /// The cursor position of buffer `buffer_id`.
    pub fn get_cursor_position(&self, buffer_id: BufferId) -> (r: ClientResult<usize>)
        ensures
            !self@.server.buffers.contains_key(buffer_id.0) ==> r matches Err(
                ClientError::ServerError(ServerError::BufferNotFound),
            ),
            self@.server.buffers.contains_key(buffer_id.0) ==> (r matches Ok(p) && p
                == self@.server.buffers[buffer_id.0].state.cursor),
    {
        match self.server.get_cursor_position(buffer_id) {
            Ok(p) => Ok(p),
            Err(e) => Err(ClientError::ServerError(e)),
        }
    }

    /// Sets the cursor of buffer `buffer_id` to `position` (see
    /// `set_cursor_outcome`).
    pub fn set_cursor_position(&mut self, buffer_id: BufferId, position: usize) -> (r:
        ClientResult<()>)
        requires
            old(self).wf(),
        ensures
            final(self).wf(),
            (final(self)@, r) == client_set_cursor(old(self)@, buffer_id, position),
    {
        let p: i32 = if position > i32::MAX as usize {
            i32::MAX
        } else {
            position as i32
        };
        match self.server.set_cursor_position(buffer_id, p) {
            Ok(()) => Ok(()),
            Err(e) => Err(ClientError::ServerError(e)),
        }
    }

    /// Moves the cursor of buffer `buffer_id` by `m` (see
    /// `move_cursor_outcome`).
    pub fn move_cursor(&mut self, buffer_id: BufferId, m: CursorMove) -> (r: ClientResult<()>)
        requires
            old(self).wf(),
        ensures
            final(self).wf(),
            (final(self)@, r) == client_move(old(self)@, buffer_id, m),
    {
        let result = match m {
            CursorMove::Left => self.server.move_cursor_left(buffer_id),
            CursorMove::Right => self.server.move_cursor_right(buffer_id),
            CursorMove::Up => self.server.move_cursor_up(buffer_id),
            CursorMove::Down => self.server.move_cursor_down(buffer_id),
        };
        match result {
            Ok(()) => Ok(()),
            Err(e) => Err(ClientError::ServerError(e)),
        }
    }

    /// Moves the cursor of buffer `buffer_id` one character right.
    pub fn move_cursor_right(&mut self, buffer_id: BufferId) -> (r: ClientResult<()>)
        requires
            old(self).wf(),
        ensures
            final(self).wf(),
            (final(self)@, r) == client_move(old(self)@, buffer_id, CursorMove::Right),
    {
        self.move_cursor(buffer_id, CursorMove::Right)
    }

    /// The line and column of the cursor of buffer `buffer_id`.
    pub fn get_cursor_display_position(&self, buffer_id: BufferId) -> (r: ClientResult<
        (usize, usize),
    >)
        requires
            self.wf(),
        ensures
            !self@.server.buffers.contains_key(buffer_id.0) ==> r matches Err(
                ClientError::ServerError(ServerError::BufferNotFound),
            ),
            self@.server.buffers.contains_key(buffer_id.0) ==> (r matches Ok(p) && p.0 == line_of(
                self@.server.buffers[buffer_id.0].state.content,
                self@.server.buffers[buffer_id.0].state.cursor as int,
            ) && p.1 == column(
                self@.server.buffers[buffer_id.0].state.content,
                self@.server.buffers[buffer_id.0].state.cursor,
            )),
    {
        match self.server.get_cursor_display_position(buffer_id) {
            Ok(p) => Ok(p),
            Err(e) => Err(ClientError::ServerError(e)),
        }
    }

    /// The editing mode of buffer `buffer_id`.
    pub fn get_mode(&self, buffer_id: BufferId) -> (r: ClientResult<EditMode>)
        ensures
            !self@.server.buffers.contains_key(buffer_id.0) ==> r matches Err(
                ClientError::ServerError(ServerError::BufferNotFound),
            ),
            self@.server.buffers.contains_key(buffer_id.0) ==> (r matches Ok(m) && m
                == self@.server.buffers[buffer_id.0].state.mode),
    {
        match self.server.get_edit_mode(buffer_id) {
            Ok(m) => Ok(m),
            Err(e) => Err(ClientError::ServerError(e)),
        }
    }

    /// Sets the editing mode of buffer `buffer_id` (see `set_mode_outcome`).
    pub fn set_mode(&mut self, buffer_id: BufferId, mode: EditMode) -> (r: ClientResult<()>)
        requires
            old(self).wf(),
        ensures
            final(self).wf(),
            (final(self)@, r) == client_set_mode(old(self)@, buffer_id, mode),
    {
        match self.server.set_edit_mode(buffer_id, mode) {
            Ok(()) => Ok(()),
            Err(e) => Err(ClientError::ServerError(e)),
        }
    }

    /// The number of buffers this client created.
    pub fn buffer_count(&self) -> (n: usize)
        ensures
            n == self@.active_buffers.len(),
    {
        self.active_buffers.len()
    }
}

} // verus!
