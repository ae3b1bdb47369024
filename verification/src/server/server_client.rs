//! A client as the server keeps it: the buffers it follows and the events
//! waiting for it.
use vstd::prelude::*;
use std::collections::HashSet;
use crate::server::events::{BufferId, EditorEvent, EventView, TextChange};

verus! {

broadcast use vstd::std_specs::hash::group_hash_axioms;

/// The state of a `Client`: the events waiting to be fetched, oldest first,
/// and the (values of the) identifiers of the buffers it is subscribed to.
pub struct ClientState {
    pub events: Seq<EventView>,
    pub subscriptions: Set<u128>,
}

/// A client with no events and no subscriptions.
pub open spec fn empty_client() -> ClientState {
    ClientState { events: Seq::empty(), subscriptions: Set::empty() }
}

/// A server-side client record.
pub struct Client {
    editor_events: Vec<EditorEvent>,
    subscribed_buffers: HashSet<u128>,
}

impl View for Client {
    type V = ClientState;

    closed spec fn view(&self) -> ClientState {
        ClientState {
            events: self.editor_events@.map_values(|e: EditorEvent| e@),
            subscriptions: self.subscribed_buffers@,
        }
    }
}

/// A copy of `e` with the same contents.
pub fn copy_event(e: &EditorEvent) -> (r: EditorEvent)
    ensures
        r@ == e@,
{
    match e {
        EditorEvent::BufferChanged { buffer_id, changes } => {
            let mut copied: Vec<TextChange> = Vec::new();
            let mut i: usize = 0;
            while i < changes.len()
                invariant
                    i <= changes@.len(),
                    copied@.len() == i,
                    forall|j: int| 0 <= j < i ==> (#[trigger] copied@[j])@ == changes@[j]@,
                decreases changes.len() - i,
            {
                let c = &changes[i];
                copied.push(
                    TextChange {
                        position: c.position,
                        deleted_text: c.deleted_text.clone(),
                        inserted_text: c.inserted_text.clone(),
                    },
                );
                i += 1;
            }
            assert(copied@.map_values(|c: TextChange| c@) =~= changes@.map_values(
                |c: TextChange| c@,
            ));
            EditorEvent::BufferChanged { buffer_id: *buffer_id, changes: copied }
        },
        EditorEvent::CursorMoved { buffer_id, position } => EditorEvent::CursorMoved {
            buffer_id: *buffer_id,
            position: *position,
        },
        EditorEvent::ModeChanged { buffer_id, mode } => EditorEvent::ModeChanged {
            buffer_id: *buffer_id,
            mode: *mode,
        },
    }
}

impl Client {
    /// A client with no events and no subscriptions.
    pub fn new() -> (c: Self)
        ensures
            c@ == empty_client(),
    {
        let c = Self { editor_events: Vec::new(), subscribed_buffers: HashSet::new() };
        assert(c@.events =~= Seq::<EventView>::empty());
        c
    }

    /// Whether the client follows `buffer_id`.
    pub fn is_subscribed_to_buffer(&self, buffer_id: BufferId) -> (b: bool)
        ensures
            b == self@.subscriptions.contains(buffer_id.0),
    {
        self.subscribed_buffers.contains(&buffer_id.0)
    }

    /// Makes the client follow `buffer_id`.
    pub fn subscribe_to_buffer(&mut self, buffer_id: BufferId)
        ensures
            final(self)@ == (ClientState {
                subscriptions: old(self)@.subscriptions.insert(buffer_id.0),
                ..old(self)@
            }),
    {
        self.subscribed_buffers.insert(buffer_id.0);
    }

    /// Makes the client stop following `buffer_id`.
    pub fn unsubscribe_from_buffer(&mut self, buffer_id: BufferId)
        ensures
            final(self)@ == (ClientState {
                subscriptions: old(self)@.subscriptions.remove(buffer_id.0),
                ..old(self)@
            }),
    {
        self.subscribed_buffers.remove(&buffer_id.0);
    }

    /// Hands out the waiting events, oldest first, and empties the queue.
    pub fn get_event_queue(&mut self) -> (events: Vec<EditorEvent>)
        ensures
            events@.map_values(|e: EditorEvent| e@) == old(self)@.events,
            final(self)@ == (ClientState { events: Seq::empty(), ..old(self)@ }),
    {
        let mut events: Vec<EditorEvent> = Vec::new();
        std::mem::swap(&mut events, &mut self.editor_events);
        assert(self.editor_events@.map_values(|e: EditorEvent| e@) =~= Seq::<EventView>::empty());
        events
    }

    /// Adds `event` at the end of the queue.
    pub fn push_to_event_queue(&mut self, event: EditorEvent)
        ensures
            final(self)@ == (ClientState {
                events: old(self)@.events.push(event@),
                ..old(self)@
            }),
    {
        self.editor_events.push(event);
        assert(self.editor_events@.map_values(|e: EditorEvent| e@) =~= old(
            self,
        ).editor_events@.map_values(|e: EditorEvent| e@).push(event@));
    }
}

} // verus!
