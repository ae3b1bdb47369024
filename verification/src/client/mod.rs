//! The client side: a handle that owns an editor server connection.
pub mod editor_client;
