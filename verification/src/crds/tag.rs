//! The `SonarrTag` resource: a tag in Sonarr.

use vstd::prelude::*;
use crate::crds::SonarrInstanceRef;
use crate::meta::Condition;

verus! {

/// Desired state of a tag.
pub struct SonarrTagSpec {
    /// Reference to the Sonarr instance
    pub sonarr_instance_ref: SonarrInstanceRef,
    /// Tag label
    pub label: String,
}

/// Observed state of a tag.
pub struct SonarrTagStatus {
    /// Current conditions
    pub conditions: Vec<Condition>,
    /// Sonarr tag id
    pub id: Option<i32>,
    /// Observed generation
    pub observed_generation: i64,
}

impl Default for SonarrTagStatus {
    /// Every setting unset: empty, absent, false or zero.
    fn default() -> (r: SonarrTagStatus)
        ensures
            r.conditions@.len() == 0,
            r.id is None,
            r.observed_generation == 0,
    {
        SonarrTagStatus {
            conditions: Vec::new(),
            id: None,
            observed_generation: 0,
        }
    }
}

} // verus!
