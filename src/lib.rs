//! A confirmation overlay for a terminal workspace: it asks before quitting
//! the session, closing a pane or closing a tab, and works out which pane or
//! tab was focused before it opened from the host's asynchronous notifications.

pub mod action;
pub mod keys;
pub mod laws;
pub mod render;
pub mod resolver;
pub mod state;
pub mod text;
