//! The `SonarrNamingConfig` resource: the episode naming settings of a
//! Sonarr instance (one per instance).

use vstd::prelude::*;
use crate::crds::SonarrInstanceRef;
use crate::meta::Condition;

verus! {

/// Desired naming settings; unset fields keep Sonarr's.
pub struct SonarrNamingConfigSpec {
    pub sonarr_instance_ref: SonarrInstanceRef,
    pub rename_episodes: Option<bool>,
    pub replace_illegal_characters: Option<bool>,
    pub colon_replacement_format: Option<i32>,
    pub custom_colon_replacement_format: Option<String>,
    pub multi_episode_style: Option<i32>,
    pub standard_episode_format: Option<String>,
    pub daily_episode_format: Option<String>,
    pub anime_episode_format: Option<String>,
    pub series_folder_format: Option<String>,
    pub season_folder_format: Option<String>,
    pub specials_folder_format: Option<String>,
}

/// Observed state of the naming settings.
pub struct SonarrNamingConfigStatus {
    pub conditions: Vec<Condition>,
    pub observed_generation: i64,
}

impl Default for SonarrNamingConfigStatus {
    /// Every setting unset: empty, absent, false or zero.
    fn default() -> (r: SonarrNamingConfigStatus)
        ensures
            r.conditions@.len() == 0,
            r.observed_generation == 0,
    {
        SonarrNamingConfigStatus {
            conditions: Vec::new(),
            observed_generation: 0,
        }
    }
}

} // verus!
