//! The delay profile controller: the delay profile it sends to Sonarr.
//! Delay profiles have no name, so one without a recorded id is always
//! created anew.

use vstd::prelude::*;
use crate::api::models::DelayProfileResource;
use crate::api::models::DownloadProtocol as ApiDownloadProtocol;
use crate::controllers::utils::clone_ids;
use crate::crds::delay_profile::{DownloadProtocol, SonarrDelayProfileSpec};

verus! {

/// A download protocol in Sonarr's terms.
pub open spec fn spec_protocol(p: DownloadProtocol) -> ApiDownloadProtocol {
    match p {
        DownloadProtocol::Usenet => ApiDownloadProtocol::Usenet,
        DownloadProtocol::Torrent => ApiDownloadProtocol::Torrent,
    }
}

/// Distinct settings are sent as distinct values of Sonarr's own type.
pub proof fn lemma_protocol_injective(a: DownloadProtocol, b: DownloadProtocol)
    requires
        spec_protocol(a) == spec_protocol(b),
    ensures
        a == b,
{
}

/// A download protocol in Sonarr's terms.
pub fn convert_protocol(p: &DownloadProtocol) -> (r: ApiDownloadProtocol)
    ensures
        r == spec_protocol(*p),
{
    match p {
        DownloadProtocol::Usenet => ApiDownloadProtocol::Usenet,
        DownloadProtocol::Torrent => ApiDownloadProtocol::Torrent,
    }
}

/// The delay profile to send: the spec's settings and tags, with the
/// recorded id for an update.
pub fn delay_profile_payload(spec: &SonarrDelayProfileSpec, id: Option<i32>) -> (p: DelayProfileResource)
    ensures
        p.id == id,
        p.enable_usenet == spec.enable_usenet,
        p.enable_torrent == spec.enable_torrent,
        p.preferred_protocol == spec_protocol(spec.preferred_protocol),
        p.usenet_delay == spec.usenet_delay,
        p.torrent_delay == spec.torrent_delay,
        p.bypass_if_highest_quality == spec.bypass_if_highest_quality,
        p.bypass_if_above_custom_format_score == spec.bypass_if_above_custom_format_score,
        p.minimum_custom_format_score == spec.minimum_custom_format_score,
        p.order == spec.order,
        p.tags@ == spec.tags@,
{
    DelayProfileResource {
        id,
        enable_usenet: spec.enable_usenet,
        enable_torrent: spec.enable_torrent,
        preferred_protocol: convert_protocol(&spec.preferred_protocol),
        usenet_delay: spec.usenet_delay,
        torrent_delay: spec.torrent_delay,
        bypass_if_highest_quality: spec.bypass_if_highest_quality,
        bypass_if_above_custom_format_score: spec.bypass_if_above_custom_format_score,
        minimum_custom_format_score: spec.minimum_custom_format_score,
        order: spec.order,
        tags: clone_ids(&spec.tags),
    }
}

} // verus!
