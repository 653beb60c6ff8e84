//! The `SonarrSeries` resource: a series in the Sonarr library.

use vstd::prelude::*;
use crate::crds::SonarrInstanceRef;
use crate::meta::Condition;

verus! {

/// Desired state of a series.
pub struct SonarrSeriesSpec {
    pub sonarr_instance_ref: SonarrInstanceRef,
    /// Series title
    pub title: String,
    /// TVDB ID for the series
    pub tvdb_id: i32,
    /// Title slug
    pub title_slug: String,
    /// Quality profile ID or name reference
    pub quality_profile: QualityProfileRef,
    /// Root folder path for the series
    pub root_folder_path: String,
    /// Whether the series is monitored
    pub monitored: bool,
    /// Use season folders
    pub season_folder: bool,
    /// Use scene numbering
    pub use_scene_numbering: bool,
    /// Series type
    pub series_type: SeriesType,
    /// Tags for this series
    pub tags: Vec<i32>,
    /// Specific path override
    pub path: Option<String>,
    /// Options used when the series is added
    pub add_options: AddSeriesOptions,
}

/// Whether a flag is on when not said otherwise.
pub fn default_true() -> (b: bool)
    ensures
        b,
{
    true
}

/// Series type when not said otherwise.
pub fn default_series_type() -> (t: SeriesType)
    ensures
        t == SeriesType::Standard,
{
    SeriesType::Standard
}

/// Add options when not said otherwise: monitor all, search for missing
/// episodes, not for cutoff-unmet ones.
pub fn default_monitor_type() -> (o: AddSeriesOptions)
    ensures
        o == (AddSeriesOptions {
            monitor: MonitorType::All,
            search_for_missing_episodes: true,
            search_for_cutoff_unmet_episodes: false,
        }),
{
    AddSeriesOptions {
        monitor: MonitorType::All,
        search_for_missing_episodes: true,
        search_for_cutoff_unmet_episodes: false,
    }
}

/// A quality profile, by id or name.
pub struct QualityProfileRef {
    pub id: Option<i32>,
    pub name: Option<String>,
}

/// Series types.
#[derive(Clone, Copy, Debug, PartialEq, Eq, Structural)]
pub enum SeriesType {
    Standard,
    Daily,
    Anime,
}

/// Options used when a series is added.
#[derive(Clone, Copy, PartialEq, Eq, Structural)]
pub struct AddSeriesOptions {
    pub monitor: MonitorType,
    pub search_for_missing_episodes: bool,
    pub search_for_cutoff_unmet_episodes: bool,
}

/// Monitor type when not said otherwise.
pub fn default_monitor_all() -> (m: MonitorType)
    ensures
        m == MonitorType::All,
{
    MonitorType::All
}

/// Whether to search for missing episodes when not said otherwise.
pub fn default_true_fn() -> (b: bool)
    ensures
        b,
{
    true
}

/// Which episodes are monitored.
#[derive(Clone, Copy, Debug, PartialEq, Eq, Structural)]
pub enum MonitorType {
    All,
    Future,
    Missing,
    Existing,
    Recent,
    Pilot,
    FirstSeason,
    LastSeason,
    /// Monitor nothing ("none")
    NoEpisodes,
}

/// Observed state of a series. The completion percentage, a floating point
/// number, is not held here.
pub struct SonarrSeriesStatus {
    pub conditions: Vec<Condition>,
    pub id: Option<i32>,
    pub observed_generation: i64,
    pub episode_count: Option<i32>,
    pub episode_file_count: Option<i32>,
    pub next_airing: Option<String>,
    pub previous_airing: Option<String>,
    pub network: Option<String>,
    pub series_status: Option<String>,
}

impl Default for SonarrSeriesStatus {
    /// Every setting unset: empty, absent, false or zero.
    fn default() -> (r: SonarrSeriesStatus)
        ensures
            r.conditions@.len() == 0,
            r.id is None,
            r.observed_generation == 0,
            r.episode_count is None,
            r.episode_file_count is None,
            r.next_airing is None,
            r.previous_airing is None,
            r.network is None,
            r.series_status is None,
    {
        SonarrSeriesStatus {
            conditions: Vec::new(),
            id: None,
            observed_generation: 0,
            episode_count: None,
            episode_file_count: None,
            next_airing: None,
            previous_airing: None,
            network: None,
            series_status: None,
        }
    }
}

} // verus!
