//! The settings of a run.

use vstd::prelude::*;
use crate::time::RetentionPeriod;

verus! {

/// Everything a run is configured with.
#[derive(Debug, PartialEq, Eq)]
pub struct Config {
    pub username: String,
    pub jellyfin: JellyfinConfig,
    pub radarr: RadarrConfig,
    pub sonarr: SonarrConfig,
    pub download_clients: DownloadClientsConfig,
}

/// Where the watch-history tracker is, and the key to it.
#[derive(Debug, PartialEq, Eq)]
pub struct JellyfinConfig {
    pub base_url: String,
    pub api_key: String,
}

/// The movie library manager and the policy for movies. Without a
/// retention period watched movies go at once.
#[derive(Debug, PartialEq, Eq)]
pub struct RadarrConfig {
    pub base_url: String,
    pub api_key: String,
    pub retention_period: Option<RetentionPeriod>,
    pub tags_to_keep: Vec<String>,
    pub unmonitor: bool,
}

/// The series library manager and the policy for series. Without a
/// retention period watched series go at once.
#[derive(Debug, PartialEq, Eq)]
pub struct SonarrConfig {
    pub base_url: String,
    pub api_key: String,
    pub retention_period: Option<RetentionPeriod>,
    pub tags_to_keep: Vec<String>,
    pub unmonitor: bool,
}

/// The download clients that are configured, one of each kind at most.
#[derive(Debug, PartialEq, Eq)]
pub struct DownloadClientsConfig {
    pub qbittorrent: Option<QbittorrentConfig>,
    pub deluge: Option<DelugeConfig>,
}

#[derive(Debug, PartialEq, Eq)]
pub struct QbittorrentConfig {
    pub username: String,
    pub password: String,
    pub base_url: String,
}

#[derive(Debug, PartialEq, Eq)]
pub struct DelugeConfig {
    pub password: String,
    pub base_url: String,
}

} // verus!
