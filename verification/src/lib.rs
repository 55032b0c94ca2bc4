//! Decision engine for cleaning up a media library.
//!
//! The crate decides which watched movies, series and episodes may be removed
//! from the library managers, and sequences the calls that remove them. It
//! performs no network traffic itself: callers fetch records, hand them to the
//! functions here and carry out the actions that come back.

pub mod cleaners;
pub mod cli;
pub mod config;
pub mod download_service;
pub mod downloads;
pub mod history;
pub mod http;
pub mod jellyfin;
pub mod logging;
pub mod queue;
pub mod radarr;
pub mod retention;
pub mod sonarr;
pub mod string_set;
pub mod tags;
pub mod text;
pub mod time;
pub mod torrent_clients;
pub mod uniq;
