//! The `SonarrMediaManagementConfig` resource: the media management
//! settings of a Sonarr instance (one per instance).

use vstd::prelude::*;
use crate::crds::SonarrInstanceRef;
use crate::meta::Condition;

verus! {

/// Desired media management settings; unset fields keep Sonarr's.
pub struct SonarrMediaManagementConfigSpec {
    pub sonarr_instance_ref: SonarrInstanceRef,
    pub auto_unmonitor_previously_downloaded_episodes: Option<bool>,
    pub recycle_bin: Option<String>,
    pub recycle_bin_cleanup_days: Option<i32>,
    pub download_propers_and_repacks: Option<ProperDownloadType>,
    pub create_empty_series_folders: Option<bool>,
    pub delete_empty_folders: Option<bool>,
    pub file_date: Option<FileDateType>,
    pub rescan_after_refresh: Option<RescanAfterRefreshType>,
    pub set_permissions_linux: Option<bool>,
    pub chmod_folder: Option<String>,
    pub chown_group: Option<String>,
    pub episode_title_required: Option<EpisodeTitleRequiredType>,
    pub skip_free_space_check_when_importing: Option<bool>,
    pub minimum_free_space_when_importing: Option<i32>,
    pub copy_using_hardlinks: Option<bool>,
    pub use_script_import: Option<bool>,
    pub script_import_path: Option<String>,
    pub import_extra_files: Option<bool>,
    pub extra_file_extensions: Option<String>,
    pub enable_media_info: Option<bool>,
}

/// How propers and repacks are handled.
#[derive(Clone, Copy, Debug, PartialEq, Eq, Structural)]
pub enum ProperDownloadType {
    DoNotPrefer,
    PreferAndUpgrade,
    DoNotUpgrade,
}

impl Default for ProperDownloadType {
    fn default() -> (r: ProperDownloadType)
        ensures
            r == ProperDownloadType::DoNotPrefer,
    {
        ProperDownloadType::DoNotPrefer
    }
}

/// Which date imported files get.
#[derive(Clone, Copy, Debug, PartialEq, Eq, Structural)]
pub enum FileDateType {
    /// Keep the file date ("None")
    NoDate,
    LocalAirDate,
    UtcAirDate,
}

impl Default for FileDateType {
    fn default() -> (r: FileDateType)
        ensures
            r == FileDateType::NoDate,
    {
        FileDateType::NoDate
    }
}

/// When series folders are rescanned after a refresh.
#[derive(Clone, Copy, Debug, PartialEq, Eq, Structural)]
pub enum RescanAfterRefreshType {
    Always,
    AfterManual,
    Never,
}

impl Default for RescanAfterRefreshType {
    fn default() -> (r: RescanAfterRefreshType)
        ensures
            r == RescanAfterRefreshType::Always,
    {
        RescanAfterRefreshType::Always
    }
}

/// When an episode title is required for import.
#[derive(Clone, Copy, Debug, PartialEq, Eq, Structural)]
pub enum EpisodeTitleRequiredType {
    Always,
    BulkSeasonReleases,
    Never,
}

impl Default for EpisodeTitleRequiredType {
    fn default() -> (r: EpisodeTitleRequiredType)
        ensures
            r == EpisodeTitleRequiredType::Always,
    {
        EpisodeTitleRequiredType::Always
    }
}

/// Observed state of the media management settings.
pub struct SonarrMediaManagementConfigStatus {
    pub conditions: Vec<Condition>,
    pub observed_generation: i64,
}

impl Default for SonarrMediaManagementConfigStatus {
    /// Every setting unset: empty, absent, false or zero.
    fn default() -> (r: SonarrMediaManagementConfigStatus)
        ensures
            r.conditions@.len() == 0,
            r.observed_generation == 0,
    {
        SonarrMediaManagementConfigStatus {
            conditions: Vec::new(),
            observed_generation: 0,
        }
    }
}

} // verus!
