//! A small modal text editor: a rope-backed text buffer with a cursor, a
//! vi-like mode and command machine, an in-process editor server that
//! broadcasts edits to subscribed clients, and the editor front end that
//! drives them.
pub mod text;
pub mod mode_manager;
pub mod rope_text;
pub mod server;
pub mod text_buffer;
pub mod client;
pub mod syntax;
pub mod editor;
