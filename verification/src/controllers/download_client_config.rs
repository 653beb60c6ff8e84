//! The download client settings controller: one resource per instance
//! configures Sonarr's global download handling.

use vstd::prelude::*;
use crate::api::models::DownloadClientConfigResource;
use crate::controllers::singleton::{merge_text, pick, pick_text};
use crate::crds::download_client_config::SonarrDownloadClientConfigSpec;

verus! {

/// Sonarr's settings after applying the spec: each setting the spec gives
/// replaces the current one, and the others stay as they are.
pub open spec fn merged(spec: SonarrDownloadClientConfigSpec, current: DownloadClientConfigResource) -> DownloadClientConfigResource {
    DownloadClientConfigResource {
        id: current.id,
        download_client_working_folders: pick_text(spec.download_client_working_folders, current.download_client_working_folders),
        enable_completed_download_handling: pick(spec.enable_completed_download_handling, current.enable_completed_download_handling),
        auto_redownload_failed: pick(spec.auto_redownload_failed, current.auto_redownload_failed),
        auto_redownload_failed_from_interactive_search: pick(spec.auto_redownload_failed_from_interactive_search, current.auto_redownload_failed_from_interactive_search),
    }
}

/// The settings to send: the current settings with the spec applied.
pub fn merge_settings(spec: &SonarrDownloadClientConfigSpec, current: &DownloadClientConfigResource) -> (r: DownloadClientConfigResource)
    ensures
        r == merged(*spec, *current),
{
    DownloadClientConfigResource {
        id: current.id,
        download_client_working_folders: merge_text(&spec.download_client_working_folders, &current.download_client_working_folders),
        enable_completed_download_handling: match spec.enable_completed_download_handling { Some(v) => Some(v), None => current.enable_completed_download_handling },
        auto_redownload_failed: match spec.auto_redownload_failed { Some(v) => Some(v), None => current.auto_redownload_failed },
        auto_redownload_failed_from_interactive_search: match spec.auto_redownload_failed_from_interactive_search { Some(v) => Some(v), None => current.auto_redownload_failed_from_interactive_search },
    }
}

/// Applying the same spec again changes nothing more.
pub proof fn lemma_merge_idempotent(spec: SonarrDownloadClientConfigSpec, current: DownloadClientConfigResource)
    ensures
        merged(spec, merged(spec, current)) == merged(spec, current),
{
}

/// What the merge does to each setting: the one the spec gives is sent
/// (text settings as explicitly set), one the spec leaves out keeps its
/// current value, and the id is Sonarr's.
pub proof fn lemma_merge_per_setting(spec: SonarrDownloadClientConfigSpec, current: DownloadClientConfigResource)
    ensures
        ({
            let r = merged(spec, current);
            &&& r.id == current.id
            &&& spec.download_client_working_folders matches Some(v) ==> r.download_client_working_folders == Some(Some(v))
            &&& spec.download_client_working_folders is None ==> r.download_client_working_folders == current.download_client_working_folders
            &&& spec.enable_completed_download_handling matches Some(v) ==> r.enable_completed_download_handling == Some(v)
            &&& spec.enable_completed_download_handling is None ==> r.enable_completed_download_handling == current.enable_completed_download_handling
            &&& spec.auto_redownload_failed matches Some(v) ==> r.auto_redownload_failed == Some(v)
            &&& spec.auto_redownload_failed is None ==> r.auto_redownload_failed == current.auto_redownload_failed
            &&& spec.auto_redownload_failed_from_interactive_search matches Some(v) ==> r.auto_redownload_failed_from_interactive_search == Some(v)
            &&& spec.auto_redownload_failed_from_interactive_search is None ==> r.auto_redownload_failed_from_interactive_search == current.auto_redownload_failed_from_interactive_search
        }),
{
}

/// The key reported when Sonarr's settings have no id.
pub const ID_KEY: &'static str = "download_client_config.id";

} // verus!
