//! What can go wrong in an editor operation, and the text `{:?}` writes for
//! each error.
use vstd::prelude::*;
use crate::client::editor_client::ClientError;
use crate::server::events::ServerError;
use crate::text::{debug_quoted, debug_quoted_text};

verus! {

/// `std::io::Error`, a failed input or output operation.
#[verifier::external_type_specification]
#[verifier::external_body]
pub struct ExIoError(std::io::Error);

/// What can go wrong in an editor operation.
#[derive(Debug)]
pub enum EditorError {
    ClientError(ClientError),
    IoError(std::io::Error),
    NoActiveBuffer,
    BufferNotFound,
    NoFilePath,
}

impl From<ClientError> for EditorError {
    fn from(err: ClientError) -> (r: EditorError) {
        EditorError::ClientError(err)
    }
}

impl vstd::std_specs::convert::FromSpecImpl<ClientError> for EditorError {
    open spec fn obeys_from_spec() -> bool {
        true
    }

    open spec fn from_spec(v: ClientError) -> EditorError {
        EditorError::ClientError(v)
    }
}

impl From<std::io::Error> for EditorError {
    fn from(err: std::io::Error) -> (r: EditorError) {
        EditorError::IoError(err)
    }
}

impl vstd::std_specs::convert::FromSpecImpl<std::io::Error> for EditorError {
    open spec fn obeys_from_spec() -> bool {
        true
    }

    open spec fn from_spec(v: std::io::Error) -> EditorError {
        EditorError::IoError(v)
    }
}

/// The result of an editor operation.
pub type EditorResult<T> = Result<T, EditorError>;

/// What `{:?}` writes for a server error.
pub open spec fn server_error_debug(e: ServerError) -> Seq<char> {
    match e {
        ServerError::ClientNotFound => "ClientNotFound"@,
        ServerError::BufferNotFound => "BufferNotFound"@,
        ServerError::InvalidOperation => "InvalidOperation"@,
        ServerError::InternalError(m) => "InternalError("@ + debug_quoted(m@) + ")"@,
    }
}

/// What `{:?}` writes for a client error.
pub open spec fn client_error_debug(e: ClientError) -> Seq<char> {
    match e {
        ClientError::ServerError(s) => "ServerError("@ + server_error_debug(s) + ")"@,
        ClientError::BufferNotFound => "BufferNotFound"@,
    }
}

/// What `{:?}` writes for an editor error other than an I/O error (whose
/// text comes from the operating system).
pub open spec fn error_debug(e: EditorError) -> Option<Seq<char>> {
    match e {
        EditorError::ClientError(c) => Some("ClientError("@ + client_error_debug(c) + ")"@),
        EditorError::IoError(_) => None,
        EditorError::NoActiveBuffer => Some("NoActiveBuffer"@),
        EditorError::BufferNotFound => Some("BufferNotFound"@),
        EditorError::NoFilePath => Some("NoFilePath"@),
    }
}

/// What `{:?}` writes for an I/O error (std's `Debug` for `io::Error`).
/// The text names an operating-system error, so nothing is stated of it.
#[verifier::external_body]
fn io_error_debug(e: &std::io::Error) -> (s: String) {
    format!("{:?}", e)
}

impl ServerError {
    /// The text `{:?}` writes for the error.
    pub fn debug_text(&self) -> (s: String)
        ensures
            s@ == server_error_debug(*self),
    {
        match self {
            ServerError::ClientNotFound => "ClientNotFound".to_owned(),
            ServerError::BufferNotFound => "BufferNotFound".to_owned(),
            ServerError::InvalidOperation => "InvalidOperation".to_owned(),
            ServerError::InternalError(m) => {
                let mut s = "InternalError(".to_owned();
                s.append(debug_quoted_text(m.as_str()).as_str());
                s.append(")");
                s
            },
        }
    }
}

impl ClientError {
    /// The text `{:?}` writes for the error.
    pub fn debug_text(&self) -> (s: String)
        ensures
            s@ == client_error_debug(*self),
    {
        match self {
            ClientError::ServerError(e) => {
                let mut s = "ServerError(".to_owned();
                s.append(e.debug_text().as_str());
                s.append(")");
                s
            },
            ClientError::BufferNotFound => "BufferNotFound".to_owned(),
        }
    }
}

impl EditorError {
    /// The text `{:?}` writes for the error.
    pub fn debug_text(&self) -> (s: String)
        ensures
            error_debug(*self) matches Some(t) ==> s@ == t,
            self is IoError ==> exists|t: Seq<char>| s@ == "IoError("@ + t + ")"@,
    {
        match self {
            EditorError::ClientError(c) => {
                let mut s = "ClientError(".to_owned();
                s.append(c.debug_text().as_str());
                s.append(")");
                s
            },
            EditorError::IoError(e) => {
                let t = io_error_debug(e);
                let mut s = "IoError(".to_owned();
                s.append(t.as_str());
                s.append(")");
                s
            },
            EditorError::NoActiveBuffer => "NoActiveBuffer".to_owned(),
            EditorError::BufferNotFound => "BufferNotFound".to_owned(),
            EditorError::NoFilePath => "NoFilePath".to_owned(),
        }
    }
}

} // verus!
