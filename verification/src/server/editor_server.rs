//! The editor server: it holds the text buffers and the connected clients,
//! applies edits, and sends every change of a buffer to the clients that
//! follow it.
use vstd::prelude::*;
use std::collections::HashMap;
use vstd::std_specs::hash::spec_keys_iter;
use vstd::std_specs::iter::IteratorSpec;
use crate::server::events::{
    BufferId, ClientId, EditMode, EditorEvent, EventView, ServerError, ServerResult, TextChange,
    TextChangeView,
};
use crate::server::server_client::{Client, ClientState, copy_event, empty_client};
use crate::text::string_push;
use crate::text_buffer::{
    TextBuffer, TextBufferState, after_delete_at, modified, after_insert_at, after_move_down,
    after_move_left, after_move_right, after_move_up, column, fresh_state,
};
use crate::rope_text::{line_of, rope_len_chars};

verus! {

broadcast use vstd::std_specs::hash::group_hash_axioms;

/// A buffer as the server keeps it: the client that created it and its state.
pub struct BufferRecord {
    pub owner: ClientId,
    pub state: TextBufferState,
}

/// The state of an `EditorServer`: the connected clients and the buffers,
/// each keyed by the value of its identifier.
pub struct ServerState {
    pub clients: Map<u128, ClientState>,
    pub buffers: Map<u128, BufferRecord>,
}

/// `c` with `ev` added to its queue if it follows `buffer`.
pub open spec fn deliver_to(c: ClientState, buffer: u128, ev: EventView) -> ClientState {
    if c.subscriptions.contains(buffer) {
        ClientState { events: c.events.push(ev), ..c }
    } else {
        c
    }
}

/// `ev` added to the queue of every client that follows `buffer`.
pub open spec fn deliver(clients: Map<u128, ClientState>, buffer: u128, ev: EventView) -> Map<
    u128,
    ClientState,
> {
    clients.map_values(|c: ClientState| deliver_to(c, buffer, ev))
}

/// The server state with buffer `id` in state `b` (same owner).
pub open spec fn with_buffer_state(s: ServerState, id: u128, b: TextBufferState) -> ServerState {
    ServerState {
        buffers: s.buffers.insert(id, BufferRecord { state: b, ..s.buffers[id] }),
        ..s
    }
}

/// The server state with `ev` delivered to the followers of buffer `id`.
pub open spec fn broadcast_state(s: ServerState, id: u128, ev: EventView) -> ServerState {
    ServerState { clients: deliver(s.clients, id, ev), ..s }
}

/// Buffer `id` put in state `b`, and `ev` sent to its followers.
pub open spec fn edit_and_notify(
    s: ServerState,
    id: u128,
    b: TextBufferState,
    ev: EventView,
) -> ServerState {
    broadcast_state(with_buffer_state(s, id, b), id, ev)
}

/// The buffers that `owner` did not create.
pub open spec fn buffers_not_owned_by(buffers: Map<u128, BufferRecord>, owner: ClientId) -> Map<
    u128,
    BufferRecord,
> {
    Map::new(|k: u128| buffers.contains_key(k) && buffers[k].owner != owner, |k: u128| buffers[k])
}

/// The (values of the) identifiers of the buffers that `owner` created.
pub open spec fn buffers_owned_by(buffers: Map<u128, BufferRecord>, owner: ClientId) -> Set<u128> {
    buffers.dom().filter(|k: u128| buffers[k].owner == owner)
}

/// The change event for `ch` typed at `position` of buffer `id`.
pub open spec fn insertion_event(id: BufferId, position: usize, ch: char) -> EventView {
    EventView::BufferChanged(
        id,
        seq![TextChangeView { position, deleted_text: Seq::empty(), inserted_text: seq![ch] }],
    )
}

/// The change event for `ch` deleted at `position` of buffer `id`.
pub open spec fn deletion_event(id: BufferId, position: usize, ch: char) -> EventView {
    EventView::BufferChanged(
        id,
        seq![TextChangeView { position, deleted_text: seq![ch], inserted_text: Seq::empty() }],
    )
}

/// A way to move a buffer's cursor.
#[derive(Clone, Copy, Debug, PartialEq, Eq, Structural)]
pub enum CursorMove {
    Left,
    Right,
    Up,
    Down,
}

/// Buffer state `b` with its cursor moved by `m`.
pub open spec fn moved(b: TextBufferState, m: CursorMove) -> TextBufferState {
    match m {
        CursorMove::Left => after_move_left(b),
        CursorMove::Right => after_move_right(b),
        CursorMove::Up => after_move_up(b),
        CursorMove::Down => after_move_down(b),
    }
}

/// The state and the answer after `ch` is put at `position` of buffer `id`.
pub open spec fn insert_char_outcome(s: ServerState, id: BufferId, position: int, ch: char) -> (
    ServerState,
    ServerResult<()>,
) {
    if !s.buffers.contains_key(id.0) {
        (s, Err(ServerError::BufferNotFound))
    } else if position < 0 || position > s.buffers[id.0].state.content.len() {
        (s, Err(ServerError::InvalidOperation))
    } else {
        (
            edit_and_notify(
                s,
                id.0,
                after_insert_at(s.buffers[id.0].state, position as nat, ch),
                insertion_event(id, position as usize, ch),
            ),
            Ok(()),
        )
    }
}

/// The state and the answer after the character at `position` of buffer
/// `id` is deleted.
pub open spec fn delete_char_outcome(s: ServerState, id: BufferId, position: int) -> (
    ServerState,
    ServerResult<()>,
) {
    if !s.buffers.contains_key(id.0) {
        (s, Err(ServerError::BufferNotFound))
    } else if position < 0 || position >= s.buffers[id.0].state.content.len() {
        (s, Err(ServerError::InvalidOperation))
    } else {
        (
            edit_and_notify(
                s,
                id.0,
                after_delete_at(s.buffers[id.0].state, position as nat),
                deletion_event(id, position as usize, s.buffers[id.0].state.content[position]),
            ),
            Ok(()),
        )
    }
}

/// The state and the answer after the cursor of buffer `id` is set to
/// `position`; a position past the end of the text puts the cursor at the
/// end.
pub open spec fn set_cursor_outcome(s: ServerState, id: BufferId, position: int) -> (
    ServerState,
    ServerResult<()>,
) {
    if !s.buffers.contains_key(id.0) {
        (s, Err(ServerError::BufferNotFound))
    } else if position < 0 {
        (s, Err(ServerError::InvalidOperation))
    } else {
        let len = s.buffers[id.0].state.content.len();
        let p = if position <= len {
            position as nat
        } else {
            len
        };
        (
            edit_and_notify(
                s,
                id.0,
                TextBufferState { cursor: p, ..s.buffers[id.0].state },
                EventView::CursorMoved(id, p as usize),
            ),
            Ok(()),
        )
    }
}

/// The state and the answer after the cursor of buffer `id` is moved by `m`.
pub open spec fn move_cursor_outcome(s: ServerState, id: BufferId, m: CursorMove) -> (
    ServerState,
    ServerResult<()>,
) {
    if !s.buffers.contains_key(id.0) {
        (s, Err(ServerError::BufferNotFound))
    } else {
        let b = moved(s.buffers[id.0].state, m);
        (edit_and_notify(s, id.0, b, EventView::CursorMoved(id, b.cursor as usize)), Ok(()))
    }
}

/// The state and the answer after the mode of buffer `id` is set to `mode`.
pub open spec fn set_mode_outcome(s: ServerState, id: BufferId, mode: EditMode) -> (
    ServerState,
    ServerResult<()>,
) {
    if !s.buffers.contains_key(id.0) {
        (s, Err(ServerError::BufferNotFound))
    } else {
        (
            edit_and_notify(
                s,
                id.0,
                TextBufferState { mode, ..s.buffers[id.0].state },
                EventView::ModeChanged(id, mode),
            ),
            Ok(()),
        )
    }
}

/// The state after buffer `id` owned by `owner` is created in state `b`.
pub open spec fn with_new_buffer(
    s: ServerState,
    id: BufferId,
    owner: ClientId,
    b: TextBufferState,
) -> ServerState {
    ServerState { buffers: s.buffers.insert(id.0, BufferRecord { owner, state: b }), ..s }
}

/// The state of a buffer created empty or holding `content`.
pub open spec fn initial_buffer(content: Option<String>) -> TextBufferState {
    match content {
        Some(c) => fresh_state(c@, c@.len()),
        None => fresh_state(Seq::empty(), 0),
    }
}

/// Whether the cursor of every buffer lies within its text.
pub open spec fn cursors_in_text(s: ServerState) -> bool {
    forall|k: u128| #[trigger]
        s.buffers.contains_key(k) ==> s.buffers[k].state.cursor <= s.buffers[k].state.content.len()
}

struct OwnedBuffer {
    owner: ClientId,
    buffer: TextBuffer,
}

/// The editor server.
pub struct EditorServer {
    clients: HashMap<u128, Client>,
    buffers: HashMap<u128, OwnedBuffer>,
}

impl View for EditorServer {
    type V = ServerState;

    closed spec fn view(&self) -> ServerState {
        ServerState {
            clients: self.clients@.map_values(|c: Client| c@),
            buffers: self.buffers@.map_values(
                |b: OwnedBuffer| BufferRecord { owner: b.owner, state: b.buffer@ },
            ),
        }
    }
}

/// The keys of `m`, each once.
fn keys_of<V>(m: &HashMap<u128, V>) -> (ks: Vec<u128>)
    ensures
        ks@.to_set() == m@.dom(),
        ks@.no_duplicates(),
{
    let mut ks: Vec<u128> = Vec::new();
    for k in it: m.keys()
        invariant
            it.seq() == spec_keys_iter(m).remaining(),
            ks@.len() == it.index(),
            forall|j: int| 0 <= j < it.index() ==> ks@[j] == *it.seq()[j],
    {
        ks.push(*k);
    }
    assert(ks@ =~= spec_keys_iter(m).remaining().unref());
    ks
}

/// The first `i + 1` elements of a sequence without duplicates are the first
/// `i` and element `i`, which is not among the first `i`.
proof fn lemma_take_one_more(s: Seq<u128>, i: int)
    requires
        0 <= i < s.len(),
        s.no_duplicates(),
    ensures
        !s.take(i).contains(s[i]),
        forall|x: u128| #[trigger]
            s.take(i + 1).contains(x) <==> (s.take(i).contains(x) || x == s[i]),
{
    assert(s.take(i + 1) =~= s.take(i).push(s[i]));
    assert forall|x: u128| #[trigger]
        s.take(i + 1).contains(x) <==> (s.take(i).contains(x) || x == s[i]) by {
        let t = s.take(i);
        if t.push(s[i]).contains(x) {
            let j = choose|j: int| 0 <= j < t.push(s[i]).len() && t.push(s[i])[j] == x;
            if j < i {
                assert(t[j] == x);
            }
        }
        if t.contains(x) {
            let j = choose|j: int| 0 <= j < t.len() && t[j] == x;
            assert(t.push(s[i])[j] == x);
        }
        if x == s[i] {
            assert(t.push(s[i])[i] == x);
        }
    }
    if s.take(i).contains(s[i]) {
        let j = choose|j: int| 0 <= j < s.take(i).len() && s.take(i)[j] == s[i];
        assert(s[j] == s[i]);
    }
}

/// A `String` holding the single character `ch`.
fn one_char_string(ch: char) -> (s: String)
    ensures
        s@ == seq![ch],
{
    let mut s = String::new();
    string_push(&mut s, ch);
    s
}

impl EditorServer {
    /// Every buffer the server holds is well formed.
    pub closed spec fn wf(&self) -> bool {
        forall|k: u128| #[trigger] self.buffers@.contains_key(k) ==> self.buffers@[k].buffer.wf()
    }

    /// A server holds finitely many clients and buffers.
    pub proof fn lemma_finite(&self)
        ensures
            self@.clients.dom().finite(),
            self@.buffers.dom().finite(),
    {
        assert(self@.clients.dom() =~= self.clients@.dom());
        assert(self@.buffers.dom() =~= self.buffers@.dom());
    }

    /// In a well-formed server every cursor lies within its text.
    pub proof fn lemma_cursors_in_text(&self)
        requires
            self.wf(),
        ensures
            cursors_in_text(self@),
    {
        assert forall|k: u128| #[trigger] self@.buffers.contains_key(k) implies self@.buffers[
            k
        ].state.cursor <= self@.buffers[k].state.content.len() by {
            self.buffers@[k].buffer.lemma_cursor_in_text();
        }
    }

    /// A server with no clients and no buffers.
    pub fn new() -> (s: Self)
        ensures
            s.wf(),
            s@.clients == Map::<u128, ClientState>::empty(),
            s@.buffers == Map::<u128, BufferRecord>::empty(),
    {
        let s = Self { clients: HashMap::new(), buffers: HashMap::new() };
        assert(s@.clients =~= Map::<u128, ClientState>::empty());
        assert(s@.buffers =~= Map::<u128, BufferRecord>::empty());
        s
    }

    /// Sends `event` to every client that follows `buffer_id`.
    fn broadcast(&mut self, buffer_id: BufferId, event: EditorEvent)
        requires
            old(self).wf(),
        ensures
            final(self).wf(),
            final(self)@ == broadcast_state(old(self)@, buffer_id.0, event@),
    {
        let ids = keys_of(&self.clients);
        let ghost start = self.clients@;
        let mut i: usize = 0;
        while i < ids.len()
            invariant
                ids@.to_set() == start.dom(),
                ids@.no_duplicates(),
                i <= ids@.len(),
                self.clients@.dom() == start.dom(),
                self.buffers == old(self).buffers,
                forall|k: u128|
                    #[trigger] self.clients@.contains_key(k) ==> self.clients@[k]@ == if ids@.take(
                        i as int,
                    ).contains(k) {
                        deliver_to(start[k]@, buffer_id.0, event@)
                    } else {
                        start[k]@
                    },
            decreases ids.len() - i,
        {
            let k = ids[i];
            assert(ids@.to_set().contains(k));
            proof {
                lemma_take_one_more(ids@, i as int);
            }
            let ghost before = self.clients@;
            match self.clients.remove(&k) {
                Some(mut client) => {
                    let ghost c0 = client@;
                    if client.is_subscribed_to_buffer(buffer_id) {
                        let copy = copy_event(&event);
                        client.push_to_event_queue(copy);
                        assert(client@.events =~= c0.events.push(event@));
                        assert(client@.subscriptions =~= c0.subscriptions);
                    }
                    assert(client@ == deliver_to(start[k]@, buffer_id.0, event@));
                    self.clients.insert(k, client);
                },
                None => {},
            }
            assert(self.clients@ == before.insert(k, self.clients@[k]));
            assert(self.clients@[k]@ == deliver_to(start[k]@, buffer_id.0, event@));
            i += 1;
        }
        assert forall|x: u128| ids@.take(i as int).contains(x) <==> start.contains_key(x) by {
            assert(ids@.take(i as int) =~= ids@);
            if start.contains_key(x) {
                assert(ids@.to_set().contains(x));
            }
        }
        assert(self@.clients =~= deliver(old(self)@.clients, buffer_id.0, event@));
        assert(self@.buffers =~= old(self)@.buffers);
    }

    /// The text of buffer `buffer_id`.
    pub fn get_buffer_content(&self, buffer_id: BufferId) -> (r: ServerResult<String>)
        ensures
            !self@.buffers.contains_key(buffer_id.0) ==> r matches Err(ServerError::BufferNotFound),
            self@.buffers.contains_key(buffer_id.0) ==> (r matches Ok(s) && s@
                == self@.buffers[buffer_id.0].state.content),
    {
        match self.buffers.get(&buffer_id.0) {
            None => Err(ServerError::BufferNotFound),
            Some(entry) => Ok(entry.buffer.get_content()),
        }
    }

    /// The number of buffers.
    pub fn buffer_count(&self) -> (n: usize)
        ensures
            n == self@.buffers.len(),
    {
        assert(self@.buffers.dom() =~= self.buffers@.dom());
        self.buffers.len()
    }

    /// Creates a buffer owned by `client_id`, empty or holding `content`
    /// with the cursor at its end; a client that is not connected is refused.
    pub fn create_buffer(&mut self, client_id: ClientId, content: Option<String>) -> (r:
        ServerResult<BufferId>)
        requires
            old(self).wf(),
        ensures
            final(self).wf(),
            !old(self)@.clients.contains_key(client_id.0) ==> (r matches Err(
                ServerError::ClientNotFound,
            ) && final(self)@ == old(self)@),
            old(self)@.clients.contains_key(client_id.0) ==> (r matches Ok(id) && final(self)@
                == with_new_buffer(old(self)@, id, client_id, initial_buffer(content))),
    {
        if !self.clients.contains_key(&client_id.0) {
            return Err(ServerError::ClientNotFound);
        }
        let buffer = match content {
            None => TextBuffer::new(),
            Some(content) => TextBuffer::from_string(content),
        };
        let buffer_id = BufferId::new();
        self.buffers.insert(buffer_id.0, OwnedBuffer { owner: client_id, buffer });
        assert(self@.buffers =~= with_new_buffer(
            old(self)@,
            buffer_id,
            client_id,
            initial_buffer(content),
        ).buffers);
        assert(self@.clients =~= old(self)@.clients);
        Ok(buffer_id)
    }

    /// Whether `client_id` is connected.
    pub fn is_client_connected(&self, client_id: ClientId) -> (b: bool)
        ensures
            b == self@.clients.contains_key(client_id.0),
    {
        self.clients.contains_key(&client_id.0)
    }

    /// Disconnects `client_id` and drops the buffers it created.
    pub fn disconnect_client(&mut self, client_id: ClientId) -> (r: ServerResult<()>)
        requires
            old(self).wf(),
        ensures
            final(self).wf(),
            !old(self)@.clients.contains_key(client_id.0) ==> (r matches Err(
                ServerError::ClientNotFound,
            ) && final(self)@ == old(self)@),
            old(self)@.clients.contains_key(client_id.0) ==> r is Ok && final(self)@ == (
            ServerState {
                clients: old(self)@.clients.remove(client_id.0),
                buffers: buffers_not_owned_by(old(self)@.buffers, client_id),
            }) && final(self)@.clients.len() == old(self)@.clients.len() - 1
                && final(self)@.buffers.len() == old(self)@.buffers.len() - buffers_owned_by(
                old(self)@.buffers,
                client_id,
            ).len(),
    {
        if !self.clients.contains_key(&client_id.0) {
            return Err(ServerError::ClientNotFound);
        }
        self.clients.remove(&client_id.0);
        let ids = keys_of(&self.buffers);
        let ghost start = self.buffers@;
        let ghost remaining_clients = self.clients@;
        let mut i: usize = 0;
        while i < ids.len()
            invariant
                ids@.to_set() == start.dom(),
                ids@.no_duplicates(),
                i <= ids@.len(),
                self.clients@ == remaining_clients,
                forall|k: u128| #[trigger]
                    self.buffers@.contains_key(k) <==> start.contains_key(k) && !(ids@.take(
                        i as int,
                    ).contains(k) && start[k].owner == client_id),
                forall|k: u128| #[trigger]
                    self.buffers@.contains_key(k) ==> self.buffers@[k] == start[k],
                forall|k: u128| #[trigger] start.contains_key(k) ==> start[k].buffer.wf(),
            decreases ids.len() - i,
        {
            let k = ids[i];
            assert(ids@.to_set().contains(k));
            proof {
                lemma_take_one_more(ids@, i as int);
            }
            let owned_by_client = match self.buffers.get(&k) {
                Some(entry) => entry.owner == client_id,
                None => false,
            };
            if owned_by_client {
                self.buffers.remove(&k);
            }
            proof {
                if !self.buffers@.contains_key(k) && start.contains_key(k) {
                    assert(start[k].owner == client_id) by {
                        if start[k].owner != client_id {
                            assert(!ids@.take(i as int).contains(k));
                        }
                    }
                }
            }
            i += 1;
        }
        assert(ids@.take(i as int) =~= ids@);
        assert forall|x: u128| start.contains_key(x) implies ids@.contains(x) by {
            assert(ids@.to_set().contains(x));
        }
        assert(self@.buffers =~= buffers_not_owned_by(old(self)@.buffers, client_id));
        assert(self@.clients =~= old(self)@.clients.remove(client_id.0));
        proof {
            old(self).lemma_finite();
            let a = old(self)@.buffers.dom();
            let b = buffers_owned_by(old(self)@.buffers, client_id);
            assert(b.subset_of(a));
            vstd::set_lib::lemma_len_subset(b, a);
            assert(a.intersect(b) =~= b);
            assert(self@.buffers.dom() =~= a.difference(b));
            vstd::set_lib::lemma_set_difference_len(a, b);
        }
        Ok(())
    }

    /// The number of connected clients.
    pub fn client_count(&self) -> (n: usize)
        ensures
            n == self@.clients.len(),
    {
        assert(self@.clients.dom() =~= self.clients@.dom());
        self.clients.len()
    }

    /// Takes buffer `id` out of the server.
    fn take_buffer(&mut self, id: BufferId) -> (e: OwnedBuffer)
        requires
            old(self).wf(),
            old(self)@.buffers.contains_key(id.0),
        ensures
            final(self).wf(),
            e.buffer.wf(),
            e.owner == old(self)@.buffers[id.0].owner,
            e.buffer@ == old(self)@.buffers[id.0].state,
            final(self)@ == (ServerState {
                buffers: old(self)@.buffers.remove(id.0),
                ..old(self)@
            }),
    {
        let e = self.buffers.remove(&id.0).unwrap();
        assert(self@.buffers =~= old(self)@.buffers.remove(id.0));
        e
    }

    /// Puts `e` into the server as buffer `id`.
    fn put_buffer(&mut self, id: BufferId, e: OwnedBuffer)
        requires
            old(self).wf(),
            e.buffer.wf(),
        ensures
            final(self).wf(),
            final(self)@ == (ServerState {
                buffers: old(self)@.buffers.insert(
                    id.0,
                    BufferRecord { owner: e.owner, state: e.buffer@ },
                ),
                ..old(self)@
            }),
    {
        let ghost rec = BufferRecord { owner: e.owner, state: e.buffer@ };
        self.buffers.insert(id.0, e);
        assert(self@.buffers =~= old(self)@.buffers.insert(id.0, rec));
    }

    /// The length of the text of buffer `id`, if there is such a buffer.
    fn buffer_len(&self, id: BufferId) -> (n: Option<usize>)
        ensures
            n is None <==> !self@.buffers.contains_key(id.0),
            n matches Some(n) ==> n == self@.buffers[id.0].state.content.len(),
    {
        match self.buffers.get(&id.0) {
            None => None,
            Some(entry) => Some(rope_len_chars(entry.buffer.get_content_rope())),
        }
    }

    /// Puts back buffer `id`, taken out of the server in state `before`, as
    /// `e`, and tells its followers `event`.
    fn store_and_notify(
        &mut self,
        id: BufferId,
        e: OwnedBuffer,
        event: EditorEvent,
        Ghost(before): Ghost<ServerState>,
    )
        requires
            old(self).wf(),
            e.buffer.wf(),
            before.buffers.contains_key(id.0),
            e.owner == before.buffers[id.0].owner,
            old(self)@ == (ServerState { buffers: before.buffers.remove(id.0), ..before }),
        ensures
            final(self).wf(),
            final(self)@ == edit_and_notify(before, id.0, e.buffer@, event@),
    {
        let ghost b = e.buffer@;
        self.put_buffer(id, e);
        assert(self@.buffers =~= with_buffer_state(before, id.0, b).buffers);
        self.broadcast(id, event);
    }

    /// Puts `ch` at `position` of buffer `buffer_id` (see `after_insert_at`)
    /// and tells the buffer's followers; a missing buffer or a position
    /// outside `0..=len` is refused and changes nothing.
    pub fn insert_char(&mut self, buffer_id: BufferId, position: i32, ch: char) -> (r:
        ServerResult<()>)
        requires
            old(self).wf(),
        ensures
            final(self).wf(),
            (final(self)@, r) == insert_char_outcome(old(self)@, buffer_id, position as int, ch),
    {
        let len = match self.buffer_len(buffer_id) {
            None => return Err(ServerError::BufferNotFound),
            Some(len) => len,
        };
        if position < 0 || position as usize > len {
            return Err(ServerError::InvalidOperation);
        }
        let pos = position as usize;
        let mut entry = self.take_buffer(buffer_id);
        entry.buffer.insert_char_at_position(pos, ch);
        let mut changes: Vec<TextChange> = Vec::new();
        changes.push(
            TextChange { position: pos, deleted_text: String::new(), inserted_text: one_char_string(ch) },
        );
        let event = EditorEvent::BufferChanged { buffer_id, changes };
        assert(event@ == insertion_event(buffer_id, pos, ch)) by {
            assert(changes@.map_values(|c: TextChange| c@) =~= seq![
                TextChangeView { position: pos, deleted_text: Seq::empty(), inserted_text: seq![ch] },
            ]);
        }
        self.store_and_notify(buffer_id, entry, event, Ghost(old(self)@));
        Ok(())
    }

    /// Deletes the character at `position` of buffer `buffer_id` (see
    /// `after_delete_at`) and tells the buffer's followers; a missing buffer
    /// or a position outside `0..len` is refused and changes nothing.
    pub fn delete_char(&mut self, buffer_id: BufferId, position: i32) -> (r: ServerResult<()>)
        requires
            old(self).wf(),
        ensures
            final(self).wf(),
            (final(self)@, r) == delete_char_outcome(old(self)@, buffer_id, position as int),
    {
        let len = match self.buffer_len(buffer_id) {
            None => return Err(ServerError::BufferNotFound),
            Some(len) => len,
        };
        if position < 0 || position as usize >= len {
            return Err(ServerError::InvalidOperation);
        }
        let pos = position as usize;
        let mut entry = self.take_buffer(buffer_id);
        let deleted = match entry.buffer.delete_char_at_position(pos) {
            Ok(c) => c,
            Err(_) => {
                proof {
                    assert(false);
                }
                ' '
            },
        };
        let mut changes: Vec<TextChange> = Vec::new();
        changes.push(
            TextChange { position: pos, deleted_text: one_char_string(deleted), inserted_text: String::new() },
        );
        let event = EditorEvent::BufferChanged { buffer_id, changes };
        assert(event@ == deletion_event(buffer_id, pos, deleted)) by {
            assert(changes@.map_values(|c: TextChange| c@) =~= seq![
                TextChangeView { position: pos, deleted_text: seq![deleted], inserted_text: Seq::empty() },
            ]);
        }
        self.store_and_notify(buffer_id, entry, event, Ghost(old(self)@));
        Ok(())
    }

    /// Moves the cursor of buffer `buffer_id` to `position`, or to the end
    /// of the text when `position` lies past it, and tells the buffer's
    /// followers; a missing buffer or a negative position is refused and
    /// changes nothing.
    pub fn set_cursor_position(&mut self, buffer_id: BufferId, position: i32) -> (r:
        ServerResult<()>)
        requires
            old(self).wf(),
        ensures
            final(self).wf(),
            (final(self)@, r) == set_cursor_outcome(old(self)@, buffer_id, position as int),
    {
        let len = match self.buffer_len(buffer_id) {
            None => return Err(ServerError::BufferNotFound),
            Some(len) => len,
        };
        if position < 0 {
            return Err(ServerError::InvalidOperation);
        }
        let pos = if position as usize <= len {
            position as usize
        } else {
            len
        };
        let mut entry = self.take_buffer(buffer_id);
        let _ = entry.buffer.set_cursor_position(pos);
        self.store_and_notify(
            buffer_id,
            entry,
            EditorEvent::CursorMoved { buffer_id, position: pos },
            Ghost(old(self)@),
        );
        Ok(())
    }

    /// The cursor position of buffer `buffer_id`.
    pub fn get_cursor_position(&self, buffer_id: BufferId) -> (r: ServerResult<usize>)
        ensures
            !self@.buffers.contains_key(buffer_id.0) ==> r matches Err(ServerError::BufferNotFound),
            self@.buffers.contains_key(buffer_id.0) ==> (r matches Ok(p) && p
                == self@.buffers[buffer_id.0].state.cursor),
    {
        match self.buffers.get(&buffer_id.0) {
            None => Err(ServerError::BufferNotFound),
            Some(entry) => Ok(entry.buffer.get_cursor_position()),
        }
    }

    /// The line and column of the cursor of buffer `buffer_id`.
    pub fn get_cursor_display_position(&self, buffer_id: BufferId) -> (r: ServerResult<
        (usize, usize),
    >)
        requires
            self.wf(),
        ensures
            !self@.buffers.contains_key(buffer_id.0) ==> r matches Err(ServerError::BufferNotFound),
            self@.buffers.contains_key(buffer_id.0) ==> (r matches Ok(p) && p.0 == line_of(
                self@.buffers[buffer_id.0].state.content,
                self@.buffers[buffer_id.0].state.cursor as int,
            ) && p.1 == column(
                self@.buffers[buffer_id.0].state.content,
                self@.buffers[buffer_id.0].state.cursor,
            )),
    {
        match self.buffers.get(&buffer_id.0) {
            None => Err(ServerError::BufferNotFound),
            Some(entry) => Ok(entry.buffer.get_cursor_display_position()),
        }
    }

    /// Moves the cursor of buffer `buffer_id` one character left and tells
    /// the buffer's followers where it is; a missing buffer is refused.
    pub fn move_cursor_left(&mut self, buffer_id: BufferId) -> (r: ServerResult<()>)
        requires
            old(self).wf(),
        ensures
            final(self).wf(),
            (final(self)@, r) == move_cursor_outcome(old(self)@, buffer_id, CursorMove::Left),
    {
        if self.buffer_len(buffer_id).is_none() {
            return Err(ServerError::BufferNotFound);
        }
        let mut entry = self.take_buffer(buffer_id);
        entry.buffer.move_cursor_left();
        let position = entry.buffer.get_cursor_position();
        self.store_and_notify(
            buffer_id,
            entry,
            EditorEvent::CursorMoved { buffer_id, position },
            Ghost(old(self)@),
        );
        Ok(())
    }

    /// Moves the cursor of buffer `buffer_id` one character right and tells
    /// the buffer's followers where it is; a missing buffer is refused.
    pub fn move_cursor_right(&mut self, buffer_id: BufferId) -> (r: ServerResult<()>)
        requires
            old(self).wf(),
        ensures
            final(self).wf(),
            (final(self)@, r) == move_cursor_outcome(old(self)@, buffer_id, CursorMove::Right),
    {
        if self.buffer_len(buffer_id).is_none() {
            return Err(ServerError::BufferNotFound);
        }
        let mut entry = self.take_buffer(buffer_id);
        entry.buffer.move_cursor_right();
        let position = entry.buffer.get_cursor_position();
        self.store_and_notify(
            buffer_id,
            entry,
            EditorEvent::CursorMoved { buffer_id, position },
            Ghost(old(self)@),
        );
        Ok(())
    }

    /// Moves the cursor of buffer `buffer_id` to the line above (see
    /// `after_move_up`) and tells the buffer's followers where it is; a
    /// missing buffer is refused.
    pub fn move_cursor_up(&mut self, buffer_id: BufferId) -> (r: ServerResult<()>)
        requires
            old(self).wf(),
        ensures
            final(self).wf(),
            (final(self)@, r) == move_cursor_outcome(old(self)@, buffer_id, CursorMove::Up),
    {
        if self.buffer_len(buffer_id).is_none() {
            return Err(ServerError::BufferNotFound);
        }
        let mut entry = self.take_buffer(buffer_id);
        entry.buffer.move_cursor_up();
        let position = entry.buffer.get_cursor_position();
        self.store_and_notify(
            buffer_id,
            entry,
            EditorEvent::CursorMoved { buffer_id, position },
            Ghost(old(self)@),
        );
        Ok(())
    }

    /// Moves the cursor of buffer `buffer_id` to the line below (see
    /// `after_move_down`) and tells the buffer's followers where it is; a
    /// missing buffer is refused.
    pub fn move_cursor_down(&mut self, buffer_id: BufferId) -> (r: ServerResult<()>)
        requires
            old(self).wf(),
        ensures
            final(self).wf(),
            (final(self)@, r) == move_cursor_outcome(old(self)@, buffer_id, CursorMove::Down),
    {
        if self.buffer_len(buffer_id).is_none() {
            return Err(ServerError::BufferNotFound);
        }
        let mut entry = self.take_buffer(buffer_id);
        entry.buffer.move_cursor_down();
        let position = entry.buffer.get_cursor_position();
        self.store_and_notify(
            buffer_id,
            entry,
            EditorEvent::CursorMoved { buffer_id, position },
            Ghost(old(self)@),
        );
        Ok(())
    }

    /// The editing mode of buffer `buffer_id`.
    pub fn get_edit_mode(&self, buffer_id: BufferId) -> (r: ServerResult<EditMode>)
        ensures
            !self@.buffers.contains_key(buffer_id.0) ==> r matches Err(ServerError::BufferNotFound),
            self@.buffers.contains_key(buffer_id.0) ==> r == Ok::<EditMode, ServerError>(
                self@.buffers[buffer_id.0].state.mode,
            ),
    {
        match self.buffers.get(&buffer_id.0) {
            None => Err(ServerError::BufferNotFound),
            Some(entry) => Ok(entry.buffer.get_edit_mode()),
        }
    }

    /// Sets the editing mode of buffer `buffer_id` and tells the buffer's
    /// followers; a missing buffer is refused.
    pub fn set_edit_mode(&mut self, buffer_id: BufferId, mode: EditMode) -> (r: ServerResult<()>)
        requires
            old(self).wf(),
        ensures
            final(self).wf(),
            (final(self)@, r) == set_mode_outcome(old(self)@, buffer_id, mode),
    {
        if self.buffer_len(buffer_id).is_none() {
            return Err(ServerError::BufferNotFound);
        }
        let mut entry = self.take_buffer(buffer_id);
        entry.buffer.set_edit_mode(mode);
        self.store_and_notify(
            buffer_id,
            entry,
            EditorEvent::ModeChanged { buffer_id, mode },
            Ghost(old(self)@),
        );
        Ok(())
    }

    /// Makes `client_id` follow buffer `buffer_id`; an unknown client or
    /// buffer is refused and changes nothing.
    pub fn subscribe_to_buffer(&mut self, client_id: ClientId, buffer_id: BufferId) -> (r:
        ServerResult<()>)
        requires
            old(self).wf(),
        ensures
            final(self).wf(),
            !old(self)@.clients.contains_key(client_id.0) ==> (r matches Err(
                ServerError::ClientNotFound,
            ) && final(self)@ == old(self)@),
            old(self)@.clients.contains_key(client_id.0) && !old(self)@.buffers.contains_key(
                buffer_id.0,
            ) ==> (r matches Err(ServerError::BufferNotFound) && final(self)@ == old(self)@),
            old(self)@.clients.contains_key(client_id.0) && old(self)@.buffers.contains_key(
                buffer_id.0,
            ) ==> (r is Ok && final(self)@ == (ServerState {
                clients: old(self)@.clients.insert(
                    client_id.0,
                    ClientState {
                        subscriptions: old(self)@.clients[client_id.0].subscriptions.insert(
                            buffer_id.0,
                        ),
                        ..old(self)@.clients[client_id.0]
                    },
                ),
                ..old(self)@
            })),
    {
        if !self.clients.contains_key(&client_id.0) {
            return Err(ServerError::ClientNotFound);
        }
        if !self.buffers.contains_key(&buffer_id.0) {
            return Err(ServerError::BufferNotFound);
        }
        let mut client = self.clients.remove(&client_id.0).unwrap();
        client.subscribe_to_buffer(buffer_id);
        let ghost c = client@;
        self.clients.insert(client_id.0, client);
        assert(self@.clients =~= old(self)@.clients.insert(client_id.0, c));
        Ok(())
    }

    /// Hands out the events waiting for `client_id`, oldest first, and
    /// empties its queue; an unknown client is refused.
    pub fn get_client_events(&mut self, client_id: ClientId) -> (r: ServerResult<
        Vec<EditorEvent>,
    >)
        requires
            old(self).wf(),
        ensures
            final(self).wf(),
            !old(self)@.clients.contains_key(client_id.0) ==> (r matches Err(
                ServerError::ClientNotFound,
            ) && final(self)@ == old(self)@),
            old(self)@.clients.contains_key(client_id.0) ==> (r matches Ok(events) && events@.map_values(
                |e: EditorEvent| e@,
            ) == old(self)@.clients[client_id.0].events && final(self)@ == (ServerState {
                clients: old(self)@.clients.insert(
                    client_id.0,
                    ClientState { events: Seq::empty(), ..old(self)@.clients[client_id.0] },
                ),
                ..old(self)@
            })),
    {
        if !self.clients.contains_key(&client_id.0) {
            return Err(ServerError::ClientNotFound);
        }
        let mut client = self.clients.remove(&client_id.0).unwrap();
        let events = client.get_event_queue();
        let ghost c = client@;
        self.clients.insert(client_id.0, client);
        assert(self@.clients =~= old(self)@.clients.insert(client_id.0, c));
        Ok(events)
    }

    /// Connects a new client, with no subscriptions and no events, and
    /// returns its identifier.
    pub fn connect_client(&mut self) -> (r: ServerResult<ClientId>)
        requires
            old(self).wf(),
        ensures
            final(self).wf(),
            r matches Ok(id) && final(self)@ == (ServerState {
                clients: old(self)@.clients.insert(id.0, empty_client()),
                ..old(self)@
            }),
    {
        let client_id = ClientId::new();
        let client = Client::new();
        self.clients.insert(client_id.0, client);
        assert(self@.clients =~= old(self)@.clients.insert(client_id.0, empty_client()));
        Ok(client_id)
    }
}

/// Putting a character at a position and then deleting the character at
/// that position gives back the buffer's text and cursor.
pub proof fn insert_then_delete_restores(s: ServerState, id: BufferId, position: int, ch: char)
    requires
        s.buffers.contains_key(id.0),
        0 <= position <= s.buffers[id.0].state.content.len(),
    ensures
        insert_char_outcome(s, id, position, ch).1 is Ok,
        ({
            let after = delete_char_outcome(insert_char_outcome(s, id, position, ch).0, id, position);
            &&& after.1 is Ok
            &&& after.0.buffers[id.0].state.content == s.buffers[id.0].state.content
            &&& after.0.buffers[id.0].state.cursor == s.buffers[id.0].state.cursor
        }),
{
    let b = s.buffers[id.0].state;
    assert(b.content.insert(position, ch).remove(position) =~= b.content);
}

/// An accepted insertion is reported to exactly the clients that follow
/// the buffer: each follower's queue gains the change at its end, every
/// other queue stays as it was, and no client joins, leaves or changes
/// what it follows.
pub proof fn edits_reach_exactly_followers(
    s: ServerState,
    id: BufferId,
    position: int,
    ch: char,
    k: u128,
)
    requires
        s.buffers.contains_key(id.0),
        0 <= position <= s.buffers[id.0].state.content.len(),
        s.clients.contains_key(k),
    ensures
        insert_char_outcome(s, id, position, ch).0.clients.dom() == s.clients.dom(),
        insert_char_outcome(s, id, position, ch).0.clients[k].subscriptions
            == s.clients[k].subscriptions,
        insert_char_outcome(s, id, position, ch).0.clients[k].events == if s.clients[
            k
        ].subscriptions.contains(id.0) {
            s.clients[k].events.push(insertion_event(id, position as usize, ch))
        } else {
            s.clients[k].events
        },
{
    assert(insert_char_outcome(s, id, position, ch).0.clients.dom() =~= s.clients.dom());
}

/// A created buffer holds the text it was created with (or none), with the
/// cursor at its end, in normal mode and counting as unmodified; the other
/// buffers stay as they were.
pub proof fn created_buffers_hold_their_content(
    s: ServerState,
    id: BufferId,
    owner: ClientId,
    content: Option<String>,
    other: u128,
)
    ensures
        with_new_buffer(s, id, owner, initial_buffer(content)).buffers[id.0].state.content == (
        match content {
            Some(c) => c@,
            None => Seq::<char>::empty(),
        }),
        with_new_buffer(s, id, owner, initial_buffer(content)).buffers[id.0].state.cursor
            == with_new_buffer(s, id, owner, initial_buffer(content)).buffers[id.0].state.content.len(),
        with_new_buffer(s, id, owner, initial_buffer(content)).buffers[id.0].state.mode
            == EditMode::Normal,
        !modified(with_new_buffer(s, id, owner, initial_buffer(content)).buffers[id.0].state),
        other != id.0 && s.buffers.contains_key(other) ==> with_new_buffer(
            s,
            id,
            owner,
            initial_buffer(content),
        ).buffers[other] == s.buffers[other],
{
}

/// An edit of one buffer leaves every other buffer as it was.
pub proof fn edits_leave_other_buffers(s: ServerState, id: BufferId, position: int, ch: char, other: u128)
    requires
        other != id.0,
        s.buffers.contains_key(other),
    ensures
        insert_char_outcome(s, id, position, ch).0.buffers[other] == s.buffers[other],
        delete_char_outcome(s, id, position).0.buffers[other] == s.buffers[other],
        set_cursor_outcome(s, id, position).0.buffers[other] == s.buffers[other],
{
}

} // verus!
