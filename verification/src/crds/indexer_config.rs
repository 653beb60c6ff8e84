//! The `SonarrIndexerConfig` resource: the global indexer settings of a
//! Sonarr instance (one per instance).

use vstd::prelude::*;
use crate::crds::SonarrInstanceRef;
use crate::meta::Condition;

verus! {

/// Desired global indexer settings; unset fields keep Sonarr's.
pub struct SonarrIndexerConfigSpec {
    pub sonarr_instance_ref: SonarrInstanceRef,
    pub minimum_age: Option<i32>,
    pub retention: Option<i32>,
    pub maximum_size: Option<i32>,
    pub rss_sync_interval: Option<i32>,
}

/// Observed state of the global indexer settings.
pub struct SonarrIndexerConfigStatus {
    pub conditions: Vec<Condition>,
    pub observed_generation: i64,
}

impl Default for SonarrIndexerConfigStatus {
    /// Every setting unset: empty, absent, false or zero.
    fn default() -> (r: SonarrIndexerConfigStatus)
        ensures
            r.conditions@.len() == 0,
            r.observed_generation == 0,
    {
        SonarrIndexerConfigStatus {
            conditions: Vec::new(),
            observed_generation: 0,
        }
    }
}

} // verus!
