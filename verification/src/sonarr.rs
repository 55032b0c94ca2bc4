//! Records of the series library manager.

use vstd::prelude::*;
use crate::http::{api_key_header, api_key_headers, Header};
use crate::time::Timestamp;

pub use crate::history::{History, HistoryRecord, HistoryRecordData};
pub use crate::tags::Tag;

verus! {

/// A series in the library.
#[derive(Debug, Default, PartialEq, Eq)]
pub struct SeriesInfo {
    pub title: String,
    pub id: u64,
    pub tags: Option<Vec<u64>>,
    pub statistics: SeriesStatistics,
    pub seasons: Option<Vec<Season>>,
}

#[derive(Clone, Copy, Debug, Default, PartialEq, Eq)]
pub struct SeriesStatistics {
    pub size_on_disk: usize,
}

#[derive(Clone, Copy, Debug, Default, PartialEq, Eq)]
pub struct Season {
    pub statistics: SeasonStatistics,
}

#[derive(Clone, Copy, Debug, Default, PartialEq, Eq)]
pub struct SeasonStatistics {
    pub next_airing: Option<Timestamp>,
    pub episode_file_count: usize,
    pub total_episode_count: usize,
}

/// An episode of a series in the library. An episode without a file id has
/// nothing on disk.
#[derive(Clone, Copy, Debug, Default, PartialEq, Eq)]
pub struct EpisodeInfo {
    pub id: u64,
    pub season_number: u32,
    pub episode_number: u32,
    pub episode_file_id: Option<u64>,
    pub monitored: Option<bool>,
}

/// The headers that authorize requests to the series library manager.
pub fn auth_headers(api_key: &str) -> (headers: Vec<Header>)
    ensures
        headers@.len() == 1,
        api_key_header(api_key@, headers@[0]),
{
    api_key_headers(api_key)
}

} // verus!
