//! The `SonarrImportList` resource: an import list in Sonarr.

use vstd::prelude::*;
use crate::crds::SonarrInstanceRef;
use crate::meta::Condition;

verus! {

/// Desired state of an import list.
pub struct SonarrImportListSpec {
    pub sonarr_instance_ref: SonarrInstanceRef,
    /// Import list name
    pub name: String,
    /// Import list type/implementation
    pub list_type: ImportListType,
    /// Enable automatic add
    pub enable_automatic_add: bool,
    /// Search for missing episodes when adding
    pub search_for_missing_episodes: bool,
    /// Monitor type for imported series
    pub should_monitor: MonitorTypes,
    /// Monitor new items
    pub monitor_new_items: NewItemMonitorTypes,
    /// Root folder path for imported series
    pub root_folder_path: String,
    /// Quality profile ID to use
    pub quality_profile_id: i32,
    /// Series type
    pub series_type: SeriesTypes,
    /// Use season folders
    pub season_folder: bool,
    /// List order
    pub list_order: i32,
    /// Tags for imported series
    pub tags: Vec<i32>,
    /// Import list configuration
    pub config: ImportListConfig,
}

/// Whether a flag is on when not said otherwise.
pub fn default_true() -> (b: bool)
    ensures
        b,
{
    true
}

/// Import list implementations.
#[derive(Clone, Copy, Debug, PartialEq, Eq, Structural)]
pub enum ImportListType {
    SonarrImport,
    TraktListImport,
    TraktUserImport,
    TraktPopularImport,
    PlexImport,
    ImdbListImport,
    CustomImport,
    SimklImport,
    AniListImport,
    MyAnimeListImport,
}

impl Default for ImportListType {
    fn default() -> (r: ImportListType)
        ensures
            r == ImportListType::SonarrImport,
    {
        ImportListType::SonarrImport
    }
}

/// Which episodes of an imported series are monitored.
#[derive(Clone, Copy, Debug, PartialEq, Eq, Structural)]
pub enum MonitorTypes {
    All,
    Future,
    Missing,
    Existing,
    FirstSeason,
    LatestSeason,
    Pilot,
    MonitorSpecials,
    UnmonitorSpecials,
    /// Monitor nothing ("none")
    NoEpisodes,
}

impl Default for MonitorTypes {
    fn default() -> (r: MonitorTypes)
        ensures
            r == MonitorTypes::All,
    {
        MonitorTypes::All
    }
}

/// Whether new items of an imported series are monitored.
#[derive(Clone, Copy, Debug, PartialEq, Eq, Structural)]
pub enum NewItemMonitorTypes {
    All,
    /// Monitor no new items ("none")
    NoItems,
}

impl Default for NewItemMonitorTypes {
    fn default() -> (r: NewItemMonitorTypes)
        ensures
            r == NewItemMonitorTypes::All,
    {
        NewItemMonitorTypes::All
    }
}

/// Series types.
#[derive(Clone, Copy, Debug, PartialEq, Eq, Structural)]
pub enum SeriesTypes {
    Standard,
    Daily,
    Anime,
}

impl Default for SeriesTypes {
    fn default() -> (r: SeriesTypes)
        ensures
            r == SeriesTypes::Standard,
    {
        SeriesTypes::Standard
    }
}

/// Settings of the list's source.
pub struct ImportListConfig {
    pub base_url: Option<String>,
    pub api_key: Option<String>,
    pub access_token: Option<String>,
    pub username: Option<String>,
    pub auth_user: Option<String>,
    pub listname: Option<String>,
    pub list_id: Option<String>,
    pub trakt_list_type: Option<i32>,
    pub language_profile_id: Option<i32>,
    pub profile_ids: Vec<i32>,
    pub tag_ids: Vec<i32>,
}

/// Observed state of an import list.
pub struct SonarrImportListStatus {
    pub conditions: Vec<Condition>,
    pub id: Option<i32>,
    pub observed_generation: i64,
}

impl Default for ImportListConfig {
    /// Every setting unset: empty, absent, false or zero.
    fn default() -> (r: ImportListConfig)
        ensures
            r.base_url is None,
            r.api_key is None,
            r.access_token is None,
            r.username is None,
            r.auth_user is None,
            r.listname is None,
            r.list_id is None,
            r.trakt_list_type is None,
            r.language_profile_id is None,
            r.profile_ids@.len() == 0,
            r.tag_ids@.len() == 0,
    {
        ImportListConfig {
            base_url: None,
            api_key: None,
            access_token: None,
            username: None,
            auth_user: None,
            listname: None,
            list_id: None,
            trakt_list_type: None,
            language_profile_id: None,
            profile_ids: Vec::new(),
            tag_ids: Vec::new(),
        }
    }
}

impl Default for SonarrImportListStatus {
    /// Every setting unset: empty, absent, false or zero.
    fn default() -> (r: SonarrImportListStatus)
        ensures
            r.conditions@.len() == 0,
            r.id is None,
            r.observed_generation == 0,
    {
        SonarrImportListStatus {
            conditions: Vec::new(),
            id: None,
            observed_generation: 0,
        }
    }
}

} // verus!
