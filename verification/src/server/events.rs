//! Identifiers, modes, events and errors shared by the editor server and
//! its clients.
use vstd::prelude::*;

verus! {

/// Whether `v`, read as a UUID, is a random (version 4) UUID of the RFC
/// 4122 variant: its version nibble is 4 and its two variant bits are `10`.
pub open spec fn is_random_uuid(v: u128) -> bool {
    &&& (v >> 76u128) & 0xFu128 == 4u128
    &&& (v >> 62u128) & 0x3u128 == 2u128
}

/// A fresh random version-4 UUID (`uuid::Uuid::new_v4`), as its 128-bit
/// value (`Uuid::as_u128`). `new_v4` masks random bits to set the version
/// and variant bits; the other 122 bits are random and not stated.
#[verifier::external_body]
fn random_uuid_value() -> (v: u128)
    ensures
        is_random_uuid(v),
{
    uuid::Uuid::new_v4().as_u128()
}

/// Identifies a client connected to the server.
#[derive(Debug, Clone, Copy, PartialEq, Eq, Hash, Structural)]
pub struct ClientId(pub u128);

impl ClientId {
    /// A new random identifier: a random (version 4) UUID.
    pub fn new() -> (id: Self)
        ensures
            is_random_uuid(id.0),
    {
        Self(random_uuid_value())
    }
}

/// Identifies a text buffer held by the server.
#[derive(Debug, Clone, Copy, PartialEq, Eq, Hash, Structural)]
pub struct BufferId(pub u128);

impl BufferId {
    /// A new random identifier: a random (version 4) UUID.
    pub fn new() -> (id: Self)
        ensures
            is_random_uuid(id.0),
    {
        Self(random_uuid_value())
    }
}

/// The editing mode of a buffer.
#[derive(Debug, Clone, Copy, PartialEq, Eq, Structural)]
pub enum EditMode {
    Normal,
    Insert,
    Visual,
    Command,
}

/// One edit of a buffer's text at `position`.
#[derive(Debug, Clone)]
pub struct TextChange {
    pub position: usize,
    pub deleted_text: String,
    pub inserted_text: String,
}

/// A text change with its texts taken as character sequences.
pub struct TextChangeView {
    pub position: usize,
    pub deleted_text: Seq<char>,
    pub inserted_text: Seq<char>,
}

impl View for TextChange {
    type V = TextChangeView;

    open spec fn view(&self) -> TextChangeView {
        TextChangeView {
            position: self.position,
            deleted_text: self.deleted_text@,
            inserted_text: self.inserted_text@,
        }
    }
}

/// Something that happened to a buffer, as reported to subscribed clients.
#[derive(Debug, Clone)]
pub enum EditorEvent {
    BufferChanged { buffer_id: BufferId, changes: Vec<TextChange> },
    CursorMoved { buffer_id: BufferId, position: usize },
    ModeChanged { buffer_id: BufferId, mode: EditMode },
}

/// An event with its texts taken as character sequences.
pub enum EventView {
    BufferChanged(BufferId, Seq<TextChangeView>),
    CursorMoved(BufferId, usize),
    ModeChanged(BufferId, EditMode),
}

impl View for EditorEvent {
    type V = EventView;

    open spec fn view(&self) -> EventView {
        match self {
            EditorEvent::BufferChanged { buffer_id, changes } => EventView::BufferChanged(
                *buffer_id,
                changes@.map_values(|c: TextChange| c@),
            ),
            EditorEvent::CursorMoved { buffer_id, position } => EventView::CursorMoved(
                *buffer_id,
                *position,
            ),
            EditorEvent::ModeChanged { buffer_id, mode } => EventView::ModeChanged(
                *buffer_id,
                *mode,
            ),
        }
    }
}

/// What can go wrong in a server request.
#[derive(Debug)]
pub enum ServerError {
    ClientNotFound,
    BufferNotFound,
    InvalidOperation,
    InternalError(String),
}

/// The message shown for each error.
pub open spec fn server_error_message(e: ServerError) -> Seq<char> {
    match e {
        ServerError::ClientNotFound => "Client not found"@,
        ServerError::BufferNotFound => "Buffer not found"@,
        ServerError::InvalidOperation => "Invalid operation"@,
        ServerError::InternalError(msg) => "Internal error: "@ + msg@,
    }
}

impl ServerError {
    /// The text that describes the error.
    pub fn message(&self) -> (s: String)
        ensures
            s@ == server_error_message(*self),
    {
        match self {
            ServerError::ClientNotFound => "Client not found".to_owned(),
            ServerError::BufferNotFound => "Buffer not found".to_owned(),
            ServerError::InvalidOperation => "Invalid operation".to_owned(),
            ServerError::InternalError(msg) => {
                let mut s = "Internal error: ".to_owned();
                s.append(msg.as_str());
                s
            },
        }
    }
}

/// The result of a server request.
pub type ServerResult<T> = Result<T, ServerError>;

} // verus!
