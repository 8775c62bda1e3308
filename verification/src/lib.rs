//! shownotes: a two-pane terminal playlist editor for media files and web links,
//! with notes and sources for each item. This crate holds its state and every
//! decision it takes (what a key does, what an action changes, which command runs
//! next, how items are named, filtered, sorted and laid out), each with a contract
//! proved by Verus; the program around it reads keys, draws, and runs commands.
use vstd::prelude::*;

pub mod action;
pub mod commands;
pub mod common;
pub mod domain;
pub mod error_popup;
pub mod event;
pub mod filter;
pub mod global_key_handler;
pub mod laws;
pub mod library_pane;
pub mod note_search;
pub mod pane_view;
pub mod playlist_data;
pub mod playlist_pane;
pub mod rename;
pub mod sources;
pub mod state;
pub mod status_bar;
pub mod storage;
pub mod style;
pub mod symlink;
pub mod text;
pub mod tui_action;
pub mod url_input;
pub mod which_key;
pub mod which_key_layout;

verus! {
} // verus!
