//! The `SonarrDelayProfile` resource: a delay profile in Sonarr.

use vstd::prelude::*;
use crate::crds::SonarrInstanceRef;
use crate::meta::Condition;

verus! {

/// Desired state of a delay profile.
pub struct SonarrDelayProfileSpec {
    /// Reference to the Sonarr instance
    pub sonarr_instance_ref: SonarrInstanceRef,
    /// Enable Usenet downloads
    pub enable_usenet: bool,
    /// Enable Torrent downloads
    pub enable_torrent: bool,
    /// Preferred download protocol
    pub preferred_protocol: DownloadProtocol,
    /// Delay for Usenet in minutes
    pub usenet_delay: i32,
    /// Delay for Torrents in minutes
    pub torrent_delay: i32,
    /// Bypass delay if highest quality
    pub bypass_if_highest_quality: bool,
    /// Bypass delay if above custom format score
    pub bypass_if_above_custom_format_score: bool,
    /// Minimum custom format score to bypass delay
    pub minimum_custom_format_score: i32,
    /// Order of this profile (lower = higher priority)
    pub order: i32,
    /// Tags to apply this delay profile to
    pub tags: Vec<i32>,
}

/// Whether a protocol is enabled when not said otherwise.
pub fn default_true() -> (b: bool)
    ensures
        b,
{
    true
}

/// Download protocols.
#[derive(Clone, Copy, Debug, PartialEq, Eq, Structural)]
pub enum DownloadProtocol {
    Usenet,
    Torrent,
}

impl Default for DownloadProtocol {
    fn default() -> (r: DownloadProtocol)
        ensures
            r == DownloadProtocol::Usenet,
    {
        DownloadProtocol::Usenet
    }
}

/// Observed state of a delay profile.
pub struct SonarrDelayProfileStatus {
    pub conditions: Vec<Condition>,
    pub id: Option<i32>,
    pub observed_generation: i64,
}

impl Default for SonarrDelayProfileStatus {
    /// Every setting unset: empty, absent, false or zero.
    fn default() -> (r: SonarrDelayProfileStatus)
        ensures
            r.conditions@.len() == 0,
            r.id is None,
            r.observed_generation == 0,
    {
        SonarrDelayProfileStatus {
            conditions: Vec::new(),
            id: None,
            observed_generation: 0,
        }
    }
}

} // verus!
