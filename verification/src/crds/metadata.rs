//! The `SonarrMetadata` resource: a metadata consumer in Sonarr.

use vstd::prelude::*;
use crate::crds::SonarrInstanceRef;
use crate::meta::Condition;

verus! {

/// Desired state of a metadata consumer.
pub struct SonarrMetadataSpec {
    pub sonarr_instance_ref: SonarrInstanceRef,
    /// Metadata name
    pub name: String,
    /// Metadata implementation
    pub metadata_type: MetadataType,
    /// Enable this metadata consumer
    pub enable: bool,
    pub tags: Vec<i32>,
    pub config: MetadataConfig,
}

/// Whether a flag is on when not said otherwise.
pub fn default_true() -> (b: bool)
    ensures
        b,
{
    true
}

/// Metadata implementations.
#[derive(Clone, Copy, Debug, PartialEq, Eq, Structural)]
pub enum MetadataType {
    XbmcMetadata,
    RoksboxMetadata,
    WdtvMetadata,
}

impl Default for MetadataType {
    fn default() -> (r: MetadataType)
        ensures
            r == MetadataType::XbmcMetadata,
    {
        MetadataType::XbmcMetadata
    }
}

/// What metadata is written.
pub struct MetadataConfig {
    pub series_metadata: bool,
    pub series_metadata_url: bool,
    pub episode_metadata: bool,
    pub series_images: bool,
    pub season_images: bool,
    pub episode_images: bool,
}

/// Observed state of a metadata consumer.
pub struct SonarrMetadataStatus {
    pub conditions: Vec<Condition>,
    pub id: Option<i32>,
    pub observed_generation: i64,
}

impl Default for MetadataConfig {
    /// Every setting unset: empty, absent, false or zero.
    fn default() -> (r: MetadataConfig)
        ensures
            !r.series_metadata,
            !r.series_metadata_url,
            !r.episode_metadata,
            !r.series_images,
            !r.season_images,
            !r.episode_images,
    {
        MetadataConfig {
            series_metadata: false,
            series_metadata_url: false,
            episode_metadata: false,
            series_images: false,
            season_images: false,
            episode_images: false,
        }
    }
}

impl Default for SonarrMetadataStatus {
    /// Every setting unset: empty, absent, false or zero.
    fn default() -> (r: SonarrMetadataStatus)
        ensures
            r.conditions@.len() == 0,
            r.id is None,
            r.observed_generation == 0,
    {
        SonarrMetadataStatus {
            conditions: Vec::new(),
            id: None,
            observed_generation: 0,
        }
    }
}

} // verus!
