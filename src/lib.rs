//! Chat front end for a torrent daemon: per-conversation menu navigation, a
//! cached view of the daemon's torrent list, and the bounded-retry checks that
//! confirm an add, a pause or a resume.
use vstd::prelude::*;

pub mod action;
pub mod chat;
pub mod config;
pub mod download;
pub mod list;
pub mod menu;
pub mod pause_resume;
pub mod requests;
pub mod retry;
pub mod text;

verus! {

/// Tag attached to every torrent this bot adds.
pub const TAG_NAME: &'static str = "qbitbot";

} // verus!
