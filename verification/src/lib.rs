//! Verified core of a Zellij plugin that lists, opens, creates and deletes
//! Git worktrees: the porcelain parser, path resolution and the plugin's
//! state machine. The host calls themselves are made by the caller.

pub mod text;
pub mod worktree;
pub mod model;
pub mod state;
pub mod screen;
pub mod laws;
pub mod listing_laws;
