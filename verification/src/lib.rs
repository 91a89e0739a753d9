//! Interactive panel and input state machine for a terminal JSON-query
//! dashboard: bounded scrollers, content panes with incremental substring
//! search, a cursor-addressable command buffer with history, a duplicate-free
//! bookmark list with a plain-text persistence format, and the top-level
//! mode/focus router that turns keystrokes into pane edits and signals.
//!
//! All I/O (reading the source document, invoking the query engine, writing
//! files, drawing the screen) is left to the host program; this crate only
//! decides what those collaborators should do.

pub mod actions;
pub mod app;
pub mod bookmarks;
pub mod command;
pub mod content;
pub mod events;
pub mod help;
pub mod instructions;
pub mod opts;
pub mod scroller;
pub mod text;
