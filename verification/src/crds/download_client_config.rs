//! The `SonarrDownloadClientConfig` resource: the global download client
//! settings of a Sonarr instance (one per instance).

use vstd::prelude::*;
use crate::crds::SonarrInstanceRef;
use crate::meta::Condition;

verus! {

/// Desired global download client settings; unset fields keep Sonarr's.
pub struct SonarrDownloadClientConfigSpec {
    pub sonarr_instance_ref: SonarrInstanceRef,
    pub download_client_working_folders: Option<String>,
    pub enable_completed_download_handling: Option<bool>,
    pub auto_redownload_failed: Option<bool>,
    pub auto_redownload_failed_from_interactive_search: Option<bool>,
}

/// Observed state of the global download client settings.
pub struct SonarrDownloadClientConfigStatus {
    pub conditions: Vec<Condition>,
    pub observed_generation: i64,
}

impl Default for SonarrDownloadClientConfigStatus {
    /// Every setting unset: empty, absent, false or zero.
    fn default() -> (r: SonarrDownloadClientConfigStatus)
        ensures
            r.conditions@.len() == 0,
            r.observed_generation == 0,
    {
        SonarrDownloadClientConfigStatus {
            conditions: Vec::new(),
            observed_generation: 0,
        }
    }
}

} // verus!
