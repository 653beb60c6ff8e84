//! The `SonarrRootFolder` resource: a root folder in Sonarr.

use vstd::prelude::*;
use crate::crds::SonarrInstanceRef;
use crate::meta::Condition;

verus! {

/// Desired state of a root folder.
pub struct SonarrRootFolderSpec {
    /// Reference to the Sonarr instance
    pub sonarr_instance_ref: SonarrInstanceRef,
    /// Path of the root folder
    pub path: String,
}

/// Observed state of a root folder.
pub struct SonarrRootFolderStatus {
    /// Current conditions
    pub conditions: Vec<Condition>,
    /// Sonarr root folder id
    pub id: Option<i32>,
    /// Whether Sonarr can access the folder
    pub accessible: Option<bool>,
    /// Free space on the folder's disk
    pub free_space: Option<i64>,
    /// Observed generation
    pub observed_generation: i64,
}

impl Default for SonarrRootFolderStatus {
    /// Every setting unset: empty, absent, false or zero.
    fn default() -> (r: SonarrRootFolderStatus)
        ensures
            r.conditions@.len() == 0,
            r.id is None,
            r.accessible is None,
            r.free_space is None,
            r.observed_generation == 0,
    {
        SonarrRootFolderStatus {
            conditions: Vec::new(),
            id: None,
            accessible: None,
            free_space: None,
            observed_generation: 0,
        }
    }
}

} // verus!
