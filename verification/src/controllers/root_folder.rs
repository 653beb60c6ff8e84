//! The root folder controller: a root folder is found by its path, read
//! back by its recorded id, and created when missing; its status reports
//! whether Sonarr can reach it and its free space.

use vstd::prelude::*;
use crate::api::models::RootFolderResource;
use crate::controllers::traits::SyncedStatus;
use crate::crds::root_folder::{SonarrRootFolderSpec, SonarrRootFolderStatus};

verus! {

/// The root folder to create: the spec's path.
pub fn root_folder_payload(spec: &SonarrRootFolderSpec) -> (p: RootFolderResource)
    ensures
        p.path == spec.path,
{
    RootFolderResource { path: spec.path.clone() }
}

/// The status of a synced root folder: the synced conditions, id and
/// generation, with what Sonarr reports of the folder.
pub fn root_folder_status(synced: SyncedStatus, accessible: Option<bool>, free_space: Option<Option<i64>>) -> (s: SonarrRootFolderStatus)
    ensures
        s.conditions == synced.conditions,
        s.id == synced.id,
        s.observed_generation == synced.observed_generation,
        s.accessible == accessible,
        s.free_space == match free_space {
            Some(Some(f)) => Some(f),
            _ => None::<i64>,
        },
{
    SonarrRootFolderStatus {
        conditions: synced.conditions,
        id: synced.id,
        accessible,
        free_space: match free_space {
            Some(Some(f)) => Some(f),
            _ => None,
        },
        observed_generation: synced.observed_generation,
    }
}

} // verus!
