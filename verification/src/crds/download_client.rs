//! The `SonarrDownloadClient` resource: a download client in Sonarr.

use vstd::prelude::*;
use crate::crds::{SecretKeySelector, SonarrInstanceRef};
use crate::meta::Condition;

verus! {

/// Desired state of a download client.
pub struct SonarrDownloadClientSpec {
    /// Reference to the Sonarr instance
    pub sonarr_instance_ref: SonarrInstanceRef,
    /// Download client name
    pub name: String,
    /// Enable this download client
    pub enable: bool,
    /// Download client type
    pub download_client_type: DownloadClientType,
    /// Priority for this download client
    pub priority: i32,
    /// Remove completed downloads
    pub remove_completed_downloads: bool,
    /// Remove failed downloads
    pub remove_failed_downloads: bool,
    /// Tags for this download client
    pub tags: Vec<i32>,
    /// Download client configuration
    pub config: DownloadClientConfig,
}

/// Whether a flag is on when not said otherwise.
pub fn default_true() -> (b: bool)
    ensures
        b,
{
    true
}

/// Priority of a download client when not said otherwise.
pub fn default_priority() -> (p: i32)
    ensures
        p == 1,
{
    1
}

/// Download client implementations.
#[derive(Clone, Copy, Debug, PartialEq, Eq, Structural)]
pub enum DownloadClientType {
    Aria2,
    Deluge,
    Flood,
    Hadouken,
    NzbGet,
    NzbVortex,
    Pneumatic,
    QBittorrent,
    RTorrent,
    SABnzbd,
    TorrentBlackhole,
    TorrentDownloadStation,
    Transmission,
    UsenetBlackhole,
    UsenetDownloadStation,
    UTorrent,
    Vuze,
}

/// Connection settings of a download client.
pub struct DownloadClientConfig {
    pub host: Option<String>,
    pub port: Option<i32>,
    pub use_ssl: bool,
    pub url_base: Option<String>,
    pub username: Option<String>,
    pub password_secret_ref: Option<SecretKeySelector>,
    pub api_key_secret_ref: Option<SecretKeySelector>,
    pub tv_category: Option<String>,
    pub tv_directory: Option<String>,
    pub recent_tv_priority: Option<i32>,
    pub older_tv_priority: Option<i32>,
    pub add_paused: bool,
    pub save_magnet_files: bool,
    pub watch_folder: Option<String>,
    pub torrent_folder: Option<String>,
    pub nzb_folder: Option<String>,
    pub strm_folder: Option<String>,
    pub secret_token_secret_ref: Option<SecretKeySelector>,
    pub rpc_path: Option<String>,
    pub initial_state: Option<i32>,
    pub sequential_order: bool,
    pub first_and_last: bool,
}

/// Observed state of a download client.
pub struct SonarrDownloadClientStatus {
    pub conditions: Vec<Condition>,
    pub id: Option<i32>,
    pub observed_generation: i64,
}

impl Default for DownloadClientConfig {
    /// Every setting unset: empty, absent, false or zero.
    fn default() -> (r: DownloadClientConfig)
        ensures
            r.host is None,
            r.port is None,
            !r.use_ssl,
            r.url_base is None,
            r.username is None,
            r.password_secret_ref is None,
            r.api_key_secret_ref is None,
            r.tv_category is None,
            r.tv_directory is None,
            r.recent_tv_priority is None,
            r.older_tv_priority is None,
            !r.add_paused,
            !r.save_magnet_files,
            r.watch_folder is None,
            r.torrent_folder is None,
            r.nzb_folder is None,
            r.strm_folder is None,
            r.secret_token_secret_ref is None,
            r.rpc_path is None,
            r.initial_state is None,
            !r.sequential_order,
            !r.first_and_last,
    {
        DownloadClientConfig {
            host: None,
            port: None,
            use_ssl: false,
            url_base: None,
            username: None,
            password_secret_ref: None,
            api_key_secret_ref: None,
            tv_category: None,
            tv_directory: None,
            recent_tv_priority: None,
            older_tv_priority: None,
            add_paused: false,
            save_magnet_files: false,
            watch_folder: None,
            torrent_folder: None,
            nzb_folder: None,
            strm_folder: None,
            secret_token_secret_ref: None,
            rpc_path: None,
            initial_state: None,
            sequential_order: false,
            first_and_last: false,
        }
    }
}

impl Default for SonarrDownloadClientStatus {
    /// Every setting unset: empty, absent, false or zero.
    fn default() -> (r: SonarrDownloadClientStatus)
        ensures
            r.conditions@.len() == 0,
            r.id is None,
            r.observed_generation == 0,
    {
        SonarrDownloadClientStatus {
            conditions: Vec::new(),
            id: None,
            observed_generation: 0,
        }
    }
}

} // verus!
