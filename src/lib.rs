//! A terminal text viewer: a document, a cursor and scroll state, a viewport
//! renderer that emits terminal operations, and an input command decoder.
pub mod buffer;
pub mod editor_command;
pub mod location;
pub mod terminal;
pub mod view;
pub mod editor;
pub mod laws;
