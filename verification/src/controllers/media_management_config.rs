//! The media management settings controller: one resource per instance
//! configures how Sonarr handles files. Only another resource with a
//! creation time counts as a conflict.

use vstd::prelude::*;
use crate::api::models::MediaManagementConfigResource;
use crate::controllers::singleton::{merge_text, pick, pick_text};
use crate::crds::media_management_config::SonarrMediaManagementConfigSpec;
use crate::api::models::ProperDownloadTypes;
use crate::api::models::FileDateType as ApiFileDateType;
use crate::api::models::RescanAfterRefreshType as ApiRescanAfterRefreshType;
use crate::api::models::EpisodeTitleRequiredType as ApiEpisodeTitleRequiredType;
use crate::crds::media_management_config::{EpisodeTitleRequiredType, FileDateType, ProperDownloadType, RescanAfterRefreshType};

verus! {

/// How propers and repacks are handled, in Sonarr's terms.
pub open spec fn spec_proper_type(t: ProperDownloadType) -> ProperDownloadTypes {
    match t {
        ProperDownloadType::DoNotPrefer => ProperDownloadTypes::DoNotPrefer,
        ProperDownloadType::PreferAndUpgrade => ProperDownloadTypes::PreferAndUpgrade,
        ProperDownloadType::DoNotUpgrade => ProperDownloadTypes::DoNotUpgrade,
    }
}

/// Distinct settings are sent as distinct values of Sonarr's own type.
pub proof fn lemma_proper_type_injective(a: ProperDownloadType, b: ProperDownloadType)
    requires
        spec_proper_type(a) == spec_proper_type(b),
    ensures
        a == b,
{
}

/// How propers and repacks are handled, in Sonarr's terms.
pub fn convert_proper_type(t: &ProperDownloadType) -> (r: ProperDownloadTypes)
    ensures
        r == spec_proper_type(*t),
{
    match t {
        ProperDownloadType::DoNotPrefer => ProperDownloadTypes::DoNotPrefer,
        ProperDownloadType::PreferAndUpgrade => ProperDownloadTypes::PreferAndUpgrade,
        ProperDownloadType::DoNotUpgrade => ProperDownloadTypes::DoNotUpgrade,
    }
}

/// Which date imported files get, in Sonarr's terms.
pub open spec fn spec_file_date(t: FileDateType) -> ApiFileDateType {
    match t {
        FileDateType::NoDate => ApiFileDateType::NoDate,
        FileDateType::LocalAirDate => ApiFileDateType::LocalAirDate,
        FileDateType::UtcAirDate => ApiFileDateType::UtcAirDate,
    }
}

/// Distinct settings are sent as distinct values of Sonarr's own type.
pub proof fn lemma_file_date_injective(a: FileDateType, b: FileDateType)
    requires
        spec_file_date(a) == spec_file_date(b),
    ensures
        a == b,
{
}

/// Which date imported files get, in Sonarr's terms.
pub fn convert_file_date(t: &FileDateType) -> (r: ApiFileDateType)
    ensures
        r == spec_file_date(*t),
{
    match t {
        FileDateType::NoDate => ApiFileDateType::NoDate,
        FileDateType::LocalAirDate => ApiFileDateType::LocalAirDate,
        FileDateType::UtcAirDate => ApiFileDateType::UtcAirDate,
    }
}

/// When series folders are rescanned, in Sonarr's terms.
pub open spec fn spec_rescan(t: RescanAfterRefreshType) -> ApiRescanAfterRefreshType {
    match t {
        RescanAfterRefreshType::Always => ApiRescanAfterRefreshType::Always,
        RescanAfterRefreshType::AfterManual => ApiRescanAfterRefreshType::AfterManual,
        RescanAfterRefreshType::Never => ApiRescanAfterRefreshType::Never,
    }
}

/// Distinct settings are sent as distinct values of Sonarr's own type.
pub proof fn lemma_rescan_injective(a: RescanAfterRefreshType, b: RescanAfterRefreshType)
    requires
        spec_rescan(a) == spec_rescan(b),
    ensures
        a == b,
{
}

/// When series folders are rescanned, in Sonarr's terms.
pub fn convert_rescan(t: &RescanAfterRefreshType) -> (r: ApiRescanAfterRefreshType)
    ensures
        r == spec_rescan(*t),
{
    match t {
        RescanAfterRefreshType::Always => ApiRescanAfterRefreshType::Always,
        RescanAfterRefreshType::AfterManual => ApiRescanAfterRefreshType::AfterManual,
        RescanAfterRefreshType::Never => ApiRescanAfterRefreshType::Never,
    }
}

/// When an episode title is required, in Sonarr's terms.
pub open spec fn spec_title_required(t: EpisodeTitleRequiredType) -> ApiEpisodeTitleRequiredType {
    match t {
        EpisodeTitleRequiredType::Always => ApiEpisodeTitleRequiredType::Always,
        EpisodeTitleRequiredType::BulkSeasonReleases => ApiEpisodeTitleRequiredType::BulkSeasonReleases,
        EpisodeTitleRequiredType::Never => ApiEpisodeTitleRequiredType::Never,
    }
}

/// Distinct settings are sent as distinct values of Sonarr's own type.
pub proof fn lemma_title_required_injective(a: EpisodeTitleRequiredType, b: EpisodeTitleRequiredType)
    requires
        spec_title_required(a) == spec_title_required(b),
    ensures
        a == b,
{
}

/// When an episode title is required, in Sonarr's terms.
pub fn convert_title_required(t: &EpisodeTitleRequiredType) -> (r: ApiEpisodeTitleRequiredType)
    ensures
        r == spec_title_required(*t),
{
    match t {
        EpisodeTitleRequiredType::Always => ApiEpisodeTitleRequiredType::Always,
        EpisodeTitleRequiredType::BulkSeasonReleases => ApiEpisodeTitleRequiredType::BulkSeasonReleases,
        EpisodeTitleRequiredType::Never => ApiEpisodeTitleRequiredType::Never,
    }
}

/// An optional setting in Sonarr's terms.
pub open spec fn map_opt_proper(o: Option<ProperDownloadType>) -> Option<ProperDownloadTypes> {
    match o {
        Some(t) => Some(spec_proper_type(t)),
        None => None,
    }
}

/// An optional setting in Sonarr's terms.
pub open spec fn map_opt_file_date(o: Option<FileDateType>) -> Option<ApiFileDateType> {
    match o {
        Some(t) => Some(spec_file_date(t)),
        None => None,
    }
}

/// An optional setting in Sonarr's terms.
pub open spec fn map_opt_rescan(o: Option<RescanAfterRefreshType>) -> Option<ApiRescanAfterRefreshType> {
    match o {
        Some(t) => Some(spec_rescan(t)),
        None => None,
    }
}

/// An optional setting in Sonarr's terms.
pub open spec fn map_opt_title_required(o: Option<EpisodeTitleRequiredType>) -> Option<ApiEpisodeTitleRequiredType> {
    match o {
        Some(t) => Some(spec_title_required(t)),
        None => None,
    }
}

/// Sonarr's settings after applying the spec: each setting the spec gives
/// replaces the current one, and the others stay as they are.
pub open spec fn merged(spec: SonarrMediaManagementConfigSpec, current: MediaManagementConfigResource) -> MediaManagementConfigResource {
    MediaManagementConfigResource {
        id: current.id,
        auto_unmonitor_previously_downloaded_episodes: pick(spec.auto_unmonitor_previously_downloaded_episodes, current.auto_unmonitor_previously_downloaded_episodes),
        recycle_bin: pick_text(spec.recycle_bin, current.recycle_bin),
        recycle_bin_cleanup_days: pick(spec.recycle_bin_cleanup_days, current.recycle_bin_cleanup_days),
        download_propers_and_repacks: pick(map_opt_proper(spec.download_propers_and_repacks), current.download_propers_and_repacks),
        create_empty_series_folders: pick(spec.create_empty_series_folders, current.create_empty_series_folders),
        delete_empty_folders: pick(spec.delete_empty_folders, current.delete_empty_folders),
        file_date: pick(map_opt_file_date(spec.file_date), current.file_date),
        rescan_after_refresh: pick(map_opt_rescan(spec.rescan_after_refresh), current.rescan_after_refresh),
        set_permissions_linux: pick(spec.set_permissions_linux, current.set_permissions_linux),
        chmod_folder: pick_text(spec.chmod_folder, current.chmod_folder),
        chown_group: pick_text(spec.chown_group, current.chown_group),
        episode_title_required: pick(map_opt_title_required(spec.episode_title_required), current.episode_title_required),
        skip_free_space_check_when_importing: pick(spec.skip_free_space_check_when_importing, current.skip_free_space_check_when_importing),
        minimum_free_space_when_importing: pick(spec.minimum_free_space_when_importing, current.minimum_free_space_when_importing),
        copy_using_hardlinks: pick(spec.copy_using_hardlinks, current.copy_using_hardlinks),
        use_script_import: pick(spec.use_script_import, current.use_script_import),
        script_import_path: pick_text(spec.script_import_path, current.script_import_path),
        import_extra_files: pick(spec.import_extra_files, current.import_extra_files),
        extra_file_extensions: pick_text(spec.extra_file_extensions, current.extra_file_extensions),
        enable_media_info: pick(spec.enable_media_info, current.enable_media_info),
    }
}

/// The settings to send: the current settings with the spec applied.
pub fn merge_settings(spec: &SonarrMediaManagementConfigSpec, current: &MediaManagementConfigResource) -> (r: MediaManagementConfigResource)
    ensures
        r == merged(*spec, *current),
{
    MediaManagementConfigResource {
        id: current.id,
        auto_unmonitor_previously_downloaded_episodes: match spec.auto_unmonitor_previously_downloaded_episodes { Some(v) => Some(v), None => current.auto_unmonitor_previously_downloaded_episodes },
        recycle_bin: merge_text(&spec.recycle_bin, &current.recycle_bin),
        recycle_bin_cleanup_days: match spec.recycle_bin_cleanup_days { Some(v) => Some(v), None => current.recycle_bin_cleanup_days },
        download_propers_and_repacks: match spec.download_propers_and_repacks { Some(v) => Some(convert_proper_type(&v)), None => current.download_propers_and_repacks },
        create_empty_series_folders: match spec.create_empty_series_folders { Some(v) => Some(v), None => current.create_empty_series_folders },
        delete_empty_folders: match spec.delete_empty_folders { Some(v) => Some(v), None => current.delete_empty_folders },
        file_date: match spec.file_date { Some(v) => Some(convert_file_date(&v)), None => current.file_date },
        rescan_after_refresh: match spec.rescan_after_refresh { Some(v) => Some(convert_rescan(&v)), None => current.rescan_after_refresh },
        set_permissions_linux: match spec.set_permissions_linux { Some(v) => Some(v), None => current.set_permissions_linux },
        chmod_folder: merge_text(&spec.chmod_folder, &current.chmod_folder),
        chown_group: merge_text(&spec.chown_group, &current.chown_group),
        episode_title_required: match spec.episode_title_required { Some(v) => Some(convert_title_required(&v)), None => current.episode_title_required },
        skip_free_space_check_when_importing: match spec.skip_free_space_check_when_importing { Some(v) => Some(v), None => current.skip_free_space_check_when_importing },
        minimum_free_space_when_importing: match spec.minimum_free_space_when_importing { Some(v) => Some(v), None => current.minimum_free_space_when_importing },
        copy_using_hardlinks: match spec.copy_using_hardlinks { Some(v) => Some(v), None => current.copy_using_hardlinks },
        use_script_import: match spec.use_script_import { Some(v) => Some(v), None => current.use_script_import },
        script_import_path: merge_text(&spec.script_import_path, &current.script_import_path),
        import_extra_files: match spec.import_extra_files { Some(v) => Some(v), None => current.import_extra_files },
        extra_file_extensions: merge_text(&spec.extra_file_extensions, &current.extra_file_extensions),
        enable_media_info: match spec.enable_media_info { Some(v) => Some(v), None => current.enable_media_info },
    }
}

/// Applying the same spec again changes nothing more.
pub proof fn lemma_merge_idempotent(spec: SonarrMediaManagementConfigSpec, current: MediaManagementConfigResource)
    ensures
        merged(spec, merged(spec, current)) == merged(spec, current),
{
}

/// What the merge does to each setting: the one the spec gives is sent
/// (text settings as explicitly set), one the spec leaves out keeps its
/// current value, and the id is Sonarr's.
pub proof fn lemma_merge_per_setting(spec: SonarrMediaManagementConfigSpec, current: MediaManagementConfigResource)
    ensures
        ({
            let r = merged(spec, current);
            &&& r.id == current.id
            &&& spec.auto_unmonitor_previously_downloaded_episodes matches Some(v) ==> r.auto_unmonitor_previously_downloaded_episodes == Some(v)
            &&& spec.auto_unmonitor_previously_downloaded_episodes is None ==> r.auto_unmonitor_previously_downloaded_episodes == current.auto_unmonitor_previously_downloaded_episodes
            &&& spec.recycle_bin matches Some(v) ==> r.recycle_bin == Some(Some(v))
            &&& spec.recycle_bin is None ==> r.recycle_bin == current.recycle_bin
            &&& spec.recycle_bin_cleanup_days matches Some(v) ==> r.recycle_bin_cleanup_days == Some(v)
            &&& spec.recycle_bin_cleanup_days is None ==> r.recycle_bin_cleanup_days == current.recycle_bin_cleanup_days
            &&& spec.download_propers_and_repacks matches Some(v) ==> r.download_propers_and_repacks == Some(spec_proper_type(v))
            &&& spec.download_propers_and_repacks is None ==> r.download_propers_and_repacks == current.download_propers_and_repacks
            &&& spec.create_empty_series_folders matches Some(v) ==> r.create_empty_series_folders == Some(v)
            &&& spec.create_empty_series_folders is None ==> r.create_empty_series_folders == current.create_empty_series_folders
            &&& spec.delete_empty_folders matches Some(v) ==> r.delete_empty_folders == Some(v)
            &&& spec.delete_empty_folders is None ==> r.delete_empty_folders == current.delete_empty_folders
            &&& spec.file_date matches Some(v) ==> r.file_date == Some(spec_file_date(v))
            &&& spec.file_date is None ==> r.file_date == current.file_date
            &&& spec.rescan_after_refresh matches Some(v) ==> r.rescan_after_refresh == Some(spec_rescan(v))
            &&& spec.rescan_after_refresh is None ==> r.rescan_after_refresh == current.rescan_after_refresh
            &&& spec.set_permissions_linux matches Some(v) ==> r.set_permissions_linux == Some(v)
            &&& spec.set_permissions_linux is None ==> r.set_permissions_linux == current.set_permissions_linux
            &&& spec.chmod_folder matches Some(v) ==> r.chmod_folder == Some(Some(v))
            &&& spec.chmod_folder is None ==> r.chmod_folder == current.chmod_folder
            &&& spec.chown_group matches Some(v) ==> r.chown_group == Some(Some(v))
            &&& spec.chown_group is None ==> r.chown_group == current.chown_group
            &&& spec.episode_title_required matches Some(v) ==> r.episode_title_required == Some(spec_title_required(v))
            &&& spec.episode_title_required is None ==> r.episode_title_required == current.episode_title_required
            &&& spec.skip_free_space_check_when_importing matches Some(v) ==> r.skip_free_space_check_when_importing == Some(v)
            &&& spec.skip_free_space_check_when_importing is None ==> r.skip_free_space_check_when_importing == current.skip_free_space_check_when_importing
            &&& spec.minimum_free_space_when_importing matches Some(v) ==> r.minimum_free_space_when_importing == Some(v)
            &&& spec.minimum_free_space_when_importing is None ==> r.minimum_free_space_when_importing == current.minimum_free_space_when_importing
            &&& spec.copy_using_hardlinks matches Some(v) ==> r.copy_using_hardlinks == Some(v)
            &&& spec.copy_using_hardlinks is None ==> r.copy_using_hardlinks == current.copy_using_hardlinks
            &&& spec.use_script_import matches Some(v) ==> r.use_script_import == Some(v)
            &&& spec.use_script_import is None ==> r.use_script_import == current.use_script_import
            &&& spec.script_import_path matches Some(v) ==> r.script_import_path == Some(Some(v))
            &&& spec.script_import_path is None ==> r.script_import_path == current.script_import_path
            &&& spec.import_extra_files matches Some(v) ==> r.import_extra_files == Some(v)
            &&& spec.import_extra_files is None ==> r.import_extra_files == current.import_extra_files
            &&& spec.extra_file_extensions matches Some(v) ==> r.extra_file_extensions == Some(Some(v))
            &&& spec.extra_file_extensions is None ==> r.extra_file_extensions == current.extra_file_extensions
            &&& spec.enable_media_info matches Some(v) ==> r.enable_media_info == Some(v)
            &&& spec.enable_media_info is None ==> r.enable_media_info == current.enable_media_info
        }),
{
}

/// The key reported when Sonarr's settings have no id.
pub const ID_KEY: &'static str = "media_management_config.id";

} // verus!
