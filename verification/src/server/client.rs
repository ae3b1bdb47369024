//! The server's record of a connected client.
pub use crate::server::server_client::Client;
