//! The `SonarrIndexer` resource: an indexer in Sonarr.

use vstd::prelude::*;
use crate::crds::{SecretKeySelector, SonarrInstanceRef};
use crate::meta::Condition;

verus! {

/// Desired state of an indexer.
pub struct SonarrIndexerSpec {
    pub sonarr_instance_ref: SonarrInstanceRef,
    /// Indexer name
    pub name: String,
    /// Indexer implementation
    pub indexer_type: IndexerType,
    pub enable_rss: bool,
    pub enable_automatic_search: bool,
    pub enable_interactive_search: bool,
    pub priority: i32,
    pub download_client_id: Option<i32>,
    pub tags: Vec<i32>,
    pub config: IndexerConfig,
}

/// Whether a search mode is on when not said otherwise.
pub fn default_true() -> (b: bool)
    ensures
        b,
{
    true
}

/// Priority of an indexer when not said otherwise.
pub fn default_priority() -> (p: i32)
    ensures
        p == 25,
{
    25
}

/// Indexer implementations.
#[derive(Clone, Copy, Debug, PartialEq, Eq, Structural)]
pub enum IndexerType {
    Newznab,
    Torznab,
    Fanzub,
    BroadcastheNet,
    FileList,
    HDBits,
    IPTorrents,
    Nyaa,
    TorrentRss,
    TorrentLeech,
}

/// Connection settings of an indexer. The seed ratio, a floating point
/// number, is not held here.
pub struct IndexerConfig {
    pub base_url: Option<String>,
    pub api_path: Option<String>,
    pub api_key: Option<String>,
    pub api_key_secret_ref: Option<SecretKeySelector>,
    pub categories: Vec<i32>,
    pub anime_categories: Vec<i32>,
    pub anime_standard_format_search: bool,
    pub additional_parameters: Option<String>,
    pub minimum_seeders: Option<i32>,
    pub seed_time: Option<i32>,
    pub cookie: Option<String>,
    pub username: Option<String>,
    pub password_secret_ref: Option<SecretKeySelector>,
    pub passkey: Option<String>,
}

/// Observed state of an indexer.
pub struct SonarrIndexerStatus {
    pub conditions: Vec<Condition>,
    pub id: Option<i32>,
    pub observed_generation: i64,
}

impl Default for SonarrIndexerStatus {
    /// Every setting unset: empty, absent, false or zero.
    fn default() -> (r: SonarrIndexerStatus)
        ensures
            r.conditions@.len() == 0,
            r.id is None,
            r.observed_generation == 0,
    {
        SonarrIndexerStatus {
            conditions: Vec::new(),
            id: None,
            observed_generation: 0,
        }
    }
}

} // verus!
