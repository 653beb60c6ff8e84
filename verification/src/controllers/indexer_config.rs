//! The indexer settings controller: one resource per instance configures
//! Sonarr's global indexer settings.

use vstd::prelude::*;
use crate::api::models::IndexerConfigResource;
use crate::controllers::singleton::pick;
use crate::crds::indexer_config::SonarrIndexerConfigSpec;

verus! {

/// Sonarr's settings after applying the spec: each setting the spec gives
/// replaces the current one, and the others stay as they are.
pub open spec fn merged(spec: SonarrIndexerConfigSpec, current: IndexerConfigResource) -> IndexerConfigResource {
    IndexerConfigResource {
        id: current.id,
        minimum_age: pick(spec.minimum_age, current.minimum_age),
        retention: pick(spec.retention, current.retention),
        maximum_size: pick(spec.maximum_size, current.maximum_size),
        rss_sync_interval: pick(spec.rss_sync_interval, current.rss_sync_interval),
    }
}

/// The settings to send: the current settings with the spec applied.
pub fn merge_settings(spec: &SonarrIndexerConfigSpec, current: &IndexerConfigResource) -> (r: IndexerConfigResource)
    ensures
        r == merged(*spec, *current),
{
    IndexerConfigResource {
        id: current.id,
        minimum_age: match spec.minimum_age { Some(v) => Some(v), None => current.minimum_age },
        retention: match spec.retention { Some(v) => Some(v), None => current.retention },
        maximum_size: match spec.maximum_size { Some(v) => Some(v), None => current.maximum_size },
        rss_sync_interval: match spec.rss_sync_interval { Some(v) => Some(v), None => current.rss_sync_interval },
    }
}

/// Applying the same spec again changes nothing more.
pub proof fn lemma_merge_idempotent(spec: SonarrIndexerConfigSpec, current: IndexerConfigResource)
    ensures
        merged(spec, merged(spec, current)) == merged(spec, current),
{
}

/// What the merge does to each setting: the one the spec gives is sent
/// (text settings as explicitly set), one the spec leaves out keeps its
/// current value, and the id is Sonarr's.
pub proof fn lemma_merge_per_setting(spec: SonarrIndexerConfigSpec, current: IndexerConfigResource)
    ensures
        ({
            let r = merged(spec, current);
            &&& r.id == current.id
            &&& spec.minimum_age matches Some(v) ==> r.minimum_age == Some(v)
            &&& spec.minimum_age is None ==> r.minimum_age == current.minimum_age
            &&& spec.retention matches Some(v) ==> r.retention == Some(v)
            &&& spec.retention is None ==> r.retention == current.retention
            &&& spec.maximum_size matches Some(v) ==> r.maximum_size == Some(v)
            &&& spec.maximum_size is None ==> r.maximum_size == current.maximum_size
            &&& spec.rss_sync_interval matches Some(v) ==> r.rss_sync_interval == Some(v)
            &&& spec.rss_sync_interval is None ==> r.rss_sync_interval == current.rss_sync_interval
        }),
{
}

/// The key reported when Sonarr's settings have no id.
pub const ID_KEY: &'static str = "indexer_config.id";

} // verus!
