//! The in-process editor server: buffers, connected clients and the events
//! they are sent.
pub mod events;
pub mod server_client;
pub mod client;
pub mod editor_server;
