//! What the operator sends to and reads from the Sonarr API, as plain
//! values. Each type holds the fields the operator sets or reads; the
//! program around the library converts them to and from the Sonarr
//! client's types.

use vstd::prelude::*;

verus! {

/// An item of a list answer: its id and its name (or label, or path).
pub struct ListedItem {
    pub id: Option<i32>,
    pub name: Option<Option<String>>,
}

/// A tag.
pub struct TagResource {
    pub id: Option<i32>,
    pub label: String,
}

/// A root folder to create.
pub struct RootFolderResource {
    pub path: String,
}

/// An indexer.
pub struct IndexerResource {
    pub id: Option<i32>,
    pub name: String,
    pub implementation: String,
    pub enable_rss: bool,
    pub enable_automatic_search: bool,
    pub enable_interactive_search: bool,
    pub priority: i32,
    pub tags: Vec<i32>,
}

/// A download client.
pub struct DownloadClientResource {
    pub id: Option<i32>,
    pub name: String,
    pub implementation: String,
    pub enable: bool,
    pub priority: i32,
    pub remove_completed_downloads: bool,
    pub remove_failed_downloads: bool,
    pub tags: Vec<i32>,
}

/// A notification connection.
pub struct NotificationResource {
    pub id: Option<i32>,
    pub name: String,
    pub implementation: String,
    pub on_grab: bool,
    pub on_download: bool,
    pub on_upgrade: bool,
    pub on_rename: bool,
    pub on_series_add: bool,
    pub on_series_delete: bool,
    pub on_episode_file_delete: bool,
    pub on_episode_file_delete_for_upgrade: bool,
    pub on_health_issue: bool,
    pub on_health_restored: bool,
    pub on_application_update: bool,
    pub on_manual_interaction_required: bool,
    pub include_health_warnings: bool,
    pub tags: Vec<i32>,
}

/// Which episodes are monitored, as Sonarr names them.
#[derive(Clone, Copy, Debug, PartialEq, Eq, Structural)]
pub enum MonitorTypes {
    All,
    Future,
    Missing,
    Existing,
    FirstSeason,
    LastSeason,
    LatestSeason,
    Pilot,
    Recent,
    MonitorSpecials,
    UnmonitorSpecials,
    /// Sonarr's "none"
    NoEpisodes,
}

/// Whether new items are monitored, as Sonarr names it.
#[derive(Clone, Copy, Debug, PartialEq, Eq, Structural)]
pub enum NewItemMonitorTypes {
    All,
    /// Sonarr's "none"
    NoItems,
}

/// Series types, as Sonarr names them.
#[derive(Clone, Copy, Debug, PartialEq, Eq, Structural)]
pub enum SeriesTypes {
    Standard,
    Daily,
    Anime,
}

/// Download protocols, as Sonarr names them.
#[derive(Clone, Copy, Debug, PartialEq, Eq, Structural)]
pub enum DownloadProtocol {
    Usenet,
    Torrent,
}

/// An import list.
pub struct ImportListResource {
    pub id: Option<i32>,
    pub name: String,
    pub implementation: String,
    pub enable_automatic_add: bool,
    pub search_for_missing_episodes: bool,
    pub should_monitor: MonitorTypes,
    pub monitor_new_items: NewItemMonitorTypes,
    pub root_folder_path: String,
    pub quality_profile_id: i32,
    pub series_type: SeriesTypes,
    pub season_folder: bool,
    pub list_order: i32,
    pub tags: Vec<i32>,
}

/// A metadata consumer.
pub struct MetadataResource {
    pub id: Option<i32>,
    pub name: String,
    pub implementation: String,
    pub config_contract: String,
    pub enable: bool,
    pub tags: Vec<i32>,
}

/// A delay profile.
pub struct DelayProfileResource {
    pub id: Option<i32>,
    pub enable_usenet: bool,
    pub enable_torrent: bool,
    pub preferred_protocol: DownloadProtocol,
    pub usenet_delay: i32,
    pub torrent_delay: i32,
    pub bypass_if_highest_quality: bool,
    pub bypass_if_above_custom_format_score: bool,
    pub minimum_custom_format_score: i32,
    pub order: i32,
    pub tags: Vec<i32>,
}

/// A condition of a custom format.
pub struct CustomFormatSpecificationSchema {
    pub name: String,
    pub implementation: String,
    pub negate: bool,
    pub required: bool,
}

/// A custom format.
pub struct CustomFormatResource {
    pub id: Option<i32>,
    pub name: String,
    pub include_custom_format_when_renaming: bool,
    pub specifications: Vec<CustomFormatSpecificationSchema>,
}

/// The value of a field: text or a number.
pub enum FieldValue {
    Text(String),
    Number(i32),
}

/// A named field of a condition.
pub struct Field {
    pub name: String,
    pub value: FieldValue,
}

/// A condition of an auto-tagging rule.
pub struct AutoTaggingSpecificationSchema {
    pub name: String,
    pub implementation: String,
    pub negate: bool,
    pub required: bool,
    pub fields: Option<Vec<Field>>,
}

/// An auto-tagging rule.
pub struct AutoTaggingResource {
    pub id: Option<i32>,
    pub name: String,
    pub remove_tags_automatically: bool,
    pub tags: Vec<i32>,
    pub specifications: Vec<AutoTaggingSpecificationSchema>,
}

/// A language.
pub struct Language {
    pub id: i32,
    pub name: String,
}

/// A language of a profile.
pub struct LanguageProfileItemResource {
    pub language: Language,
    pub allowed: bool,
}

/// A language profile.
pub struct LanguageProfileResource {
    pub id: Option<i32>,
    pub name: String,
    pub upgrade_allowed: bool,
    pub cutoff: Language,
    pub languages: Vec<LanguageProfileItemResource>,
}

/// A quality.
pub struct Quality {
    pub id: Option<i32>,
    pub name: Option<String>,
}

/// A quality inside a quality group.
pub struct QualityProfileSubItem {
    pub allowed: bool,
    pub quality: Quality,
}

/// An item of a quality profile: a single quality, or a group of them.
pub struct QualityProfileQualityItemResource {
    pub id: Option<i32>,
    pub name: Option<String>,
    pub allowed: bool,
    pub quality: Option<Quality>,
    pub items: Option<Vec<QualityProfileSubItem>>,
}

/// A custom format and its score in a profile.
pub struct ProfileFormatItemResource {
    pub format: Option<i32>,
    pub name: Option<String>,
    pub score: i32,
}

/// A quality profile.
pub struct QualityProfileResource {
    pub id: Option<i32>,
    pub name: String,
    pub upgrade_allowed: bool,
    pub cutoff: i32,
    pub cutoff_format_score: Option<i32>,
    pub min_format_score: Option<i32>,
    pub min_upgrade_format_score: i32,
    pub items: Vec<QualityProfileQualityItemResource>,
    pub format_items: Vec<ProfileFormatItemResource>,
}

/// A quality definition as listed by Sonarr: its id, the id of its
/// quality, and its title.
pub struct QualityDefinitionSummary {
    pub id: Option<i32>,
    pub quality_id: Option<i32>,
    pub title: Option<Option<String>>,
}

/// Global naming settings.
pub struct NamingConfigResource {
    pub id: Option<i32>,
    pub rename_episodes: Option<bool>,
    pub replace_illegal_characters: Option<bool>,
    pub colon_replacement_format: Option<i32>,
    pub custom_colon_replacement_format: Option<Option<String>>,
    pub multi_episode_style: Option<i32>,
    pub standard_episode_format: Option<Option<String>>,
    pub daily_episode_format: Option<Option<String>>,
    pub anime_episode_format: Option<Option<String>>,
    pub series_folder_format: Option<Option<String>>,
    pub season_folder_format: Option<Option<String>>,
    pub specials_folder_format: Option<Option<String>>,
}

/// Global indexer settings.
#[derive(Clone, Copy, PartialEq, Eq, Structural)]
pub struct IndexerConfigResource {
    pub id: Option<i32>,
    pub minimum_age: Option<i32>,
    pub retention: Option<i32>,
    pub maximum_size: Option<i32>,
    pub rss_sync_interval: Option<i32>,
}

/// Global download client settings.
pub struct DownloadClientConfigResource {
    pub id: Option<i32>,
    pub download_client_working_folders: Option<Option<String>>,
    pub enable_completed_download_handling: Option<bool>,
    pub auto_redownload_failed: Option<bool>,
    pub auto_redownload_failed_from_interactive_search: Option<bool>,
}

/// How propers and repacks are handled, as Sonarr names it.
#[derive(Clone, Copy, Debug, PartialEq, Eq, Structural)]
pub enum ProperDownloadTypes {
    PreferAndUpgrade,
    DoNotUpgrade,
    DoNotPrefer,
}

/// Which date imported files get, as Sonarr names it.
#[derive(Clone, Copy, Debug, PartialEq, Eq, Structural)]
pub enum FileDateType {
    /// Sonarr's "none"
    NoDate,
    LocalAirDate,
    UtcAirDate,
}

/// When series folders are rescanned, as Sonarr names it.
#[derive(Clone, Copy, Debug, PartialEq, Eq, Structural)]
pub enum RescanAfterRefreshType {
    Always,
    AfterManual,
    Never,
}

/// When an episode title is required, as Sonarr names it.
#[derive(Clone, Copy, Debug, PartialEq, Eq, Structural)]
pub enum EpisodeTitleRequiredType {
    Always,
    BulkSeasonReleases,
    Never,
}

/// Global media management settings.
pub struct MediaManagementConfigResource {
    pub id: Option<i32>,
    pub auto_unmonitor_previously_downloaded_episodes: Option<bool>,
    pub recycle_bin: Option<Option<String>>,
    pub recycle_bin_cleanup_days: Option<i32>,
    pub download_propers_and_repacks: Option<ProperDownloadTypes>,
    pub create_empty_series_folders: Option<bool>,
    pub delete_empty_folders: Option<bool>,
    pub file_date: Option<FileDateType>,
    pub rescan_after_refresh: Option<RescanAfterRefreshType>,
    pub set_permissions_linux: Option<bool>,
    pub chmod_folder: Option<Option<String>>,
    pub chown_group: Option<Option<String>>,
    pub episode_title_required: Option<EpisodeTitleRequiredType>,
    pub skip_free_space_check_when_importing: Option<bool>,
    pub minimum_free_space_when_importing: Option<i32>,
    pub copy_using_hardlinks: Option<bool>,
    pub use_script_import: Option<bool>,
    pub script_import_path: Option<Option<String>>,
    pub import_extra_files: Option<bool>,
    pub extra_file_extensions: Option<Option<String>>,
    pub enable_media_info: Option<bool>,
}

/// The fields of a series the operator sets, on adding it and on each
/// update.
pub struct SeriesChanges {
    pub monitored: bool,
    /// Set only when the spec names a quality profile by id
    pub quality_profile_id: Option<i32>,
    pub root_folder_path: String,
    pub season_folder: bool,
    pub tags: Vec<i32>,
    pub series_type: SeriesTypes,
}

/// Options for adding a series.
#[derive(Clone, Copy, PartialEq, Eq, Structural)]
pub struct AddSeriesOptions {
    pub monitor: MonitorTypes,
    pub search_for_missing_episodes: bool,
    pub search_for_cutoff_unmet_episodes: bool,
}

} // verus!
