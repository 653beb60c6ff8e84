use vstd::prelude::*;
use crate::crds::SonarrInstanceRef;
use crate::meta::Condition;

verus! {

/// Desired state of a quality definition. Its size limits, floating point
/// numbers, are not held here: they are copied into the update as they are.
pub struct SonarrQualityDefinitionSpec {
    pub sonarr_instance_ref: SonarrInstanceRef,
    /// Quality name (must match an existing quality in Sonarr)
    pub quality_name: QualityName,
    /// Title/display name for this quality
    pub title: Option<String>,
}

/// Observed state of a quality definition.
pub struct SonarrQualityDefinitionStatus {
    pub conditions: Vec<Condition>,
    pub id: Option<i32>,
    pub observed_generation: i64,
}

impl Default for QualityName {
    fn default() -> (r: QualityName)
        ensures
            r == QualityName::Sdtv,
    {
        QualityName::Sdtv
    }
}

/// Quality levels known to Sonarr.
#[derive(Clone, Copy, Debug, PartialEq, Eq, Structural)]
pub enum QualityName {
    Unknown,
    Sdtv,
    Dvd,
    Webdl480p,
    Webrip480p,
    Bluray480p,
    Hdtv720p,
    Hdtv1080p,
    RawHd,
    Webdl720p,
    Webrip720p,
    Bluray720p,
    Webdl1080p,
    Webrip1080p,
    Bluray1080p,
    Bluray1080pRemux,
    Hdtv2160p,
    Webdl2160p,
    Webrip2160p,
    Bluray2160p,
    Bluray2160pRemux,
}

/// The numeric id Sonarr uses for each quality.
pub open spec fn quality_id_of(q: QualityName) -> int {
    match q {
        QualityName::Unknown => 0,
        QualityName::Sdtv => 1,
        QualityName::Dvd => 2,
        QualityName::Webdl480p => 8,
        QualityName::Webrip480p => 12,
        QualityName::Bluray480p => 20,
        QualityName::Hdtv720p => 4,
        QualityName::Hdtv1080p => 9,
        QualityName::RawHd => 10,
        QualityName::Webdl720p => 5,
        QualityName::Webrip720p => 14,
        QualityName::Bluray720p => 6,
        QualityName::Webdl1080p => 3,
        QualityName::Webrip1080p => 15,
        QualityName::Bluray1080p => 7,
        QualityName::Bluray1080pRemux => 30,
        QualityName::Hdtv2160p => 16,
        QualityName::Webdl2160p => 18,
        QualityName::Webrip2160p => 17,
        QualityName::Bluray2160p => 19,
        QualityName::Bluray2160pRemux => 31,
    }
}

impl QualityName {
    pub fn to_quality_id(&self) -> (id: i32)
        ensures
            id == quality_id_of(*self),
    {
        match self {
            QualityName::Unknown => 0,
            QualityName::Sdtv => 1,
            QualityName::Dvd => 2,
            QualityName::Webdl480p => 8,
            QualityName::Webrip480p => 12,
            QualityName::Bluray480p => 20,
            QualityName::Hdtv720p => 4,
            QualityName::Hdtv1080p => 9,
            QualityName::RawHd => 10,
            QualityName::Webdl720p => 5,
            QualityName::Webrip720p => 14,
            QualityName::Bluray720p => 6,
            QualityName::Webdl1080p => 3,
            QualityName::Webrip1080p => 15,
            QualityName::Bluray1080p => 7,
            QualityName::Bluray1080pRemux => 30,
            QualityName::Hdtv2160p => 16,
            QualityName::Webdl2160p => 18,
            QualityName::Webrip2160p => 17,
            QualityName::Bluray2160p => 19,
            QualityName::Bluray2160pRemux => 31,
        }
    }
}

impl Default for SonarrQualityDefinitionStatus {
    /// Every setting unset: empty, absent, false or zero.
    fn default() -> (r: SonarrQualityDefinitionStatus)
        ensures
            r.conditions@.len() == 0,
            r.id is None,
            r.observed_generation == 0,
    {
        SonarrQualityDefinitionStatus {
            conditions: Vec::new(),
            id: None,
            observed_generation: 0,
        }
    }
}

} // verus!
