//! The naming settings controller: one resource per instance configures
//! how Sonarr names episode files and folders.

use vstd::prelude::*;
use crate::api::models::NamingConfigResource;
use crate::controllers::singleton::{merge_text, pick, pick_text};
use crate::crds::naming_config::SonarrNamingConfigSpec;

verus! {

/// Sonarr's settings after applying the spec: each setting the spec gives
/// replaces the current one, and the others stay as they are.
pub open spec fn merged(spec: SonarrNamingConfigSpec, current: NamingConfigResource) -> NamingConfigResource {
    NamingConfigResource {
        id: current.id,
        rename_episodes: pick(spec.rename_episodes, current.rename_episodes),
        replace_illegal_characters: pick(spec.replace_illegal_characters, current.replace_illegal_characters),
        colon_replacement_format: pick(spec.colon_replacement_format, current.colon_replacement_format),
        custom_colon_replacement_format: pick_text(spec.custom_colon_replacement_format, current.custom_colon_replacement_format),
        multi_episode_style: pick(spec.multi_episode_style, current.multi_episode_style),
        standard_episode_format: pick_text(spec.standard_episode_format, current.standard_episode_format),
        daily_episode_format: pick_text(spec.daily_episode_format, current.daily_episode_format),
        anime_episode_format: pick_text(spec.anime_episode_format, current.anime_episode_format),
        series_folder_format: pick_text(spec.series_folder_format, current.series_folder_format),
        season_folder_format: pick_text(spec.season_folder_format, current.season_folder_format),
        specials_folder_format: pick_text(spec.specials_folder_format, current.specials_folder_format),
    }
}

/// The settings to send: the current settings with the spec applied.
pub fn merge_settings(spec: &SonarrNamingConfigSpec, current: &NamingConfigResource) -> (r: NamingConfigResource)
    ensures
        r == merged(*spec, *current),
{
    NamingConfigResource {
        id: current.id,
        rename_episodes: match spec.rename_episodes { Some(v) => Some(v), None => current.rename_episodes },
        replace_illegal_characters: match spec.replace_illegal_characters { Some(v) => Some(v), None => current.replace_illegal_characters },
        colon_replacement_format: match spec.colon_replacement_format { Some(v) => Some(v), None => current.colon_replacement_format },
        custom_colon_replacement_format: merge_text(&spec.custom_colon_replacement_format, &current.custom_colon_replacement_format),
        multi_episode_style: match spec.multi_episode_style { Some(v) => Some(v), None => current.multi_episode_style },
        standard_episode_format: merge_text(&spec.standard_episode_format, &current.standard_episode_format),
        daily_episode_format: merge_text(&spec.daily_episode_format, &current.daily_episode_format),
        anime_episode_format: merge_text(&spec.anime_episode_format, &current.anime_episode_format),
        series_folder_format: merge_text(&spec.series_folder_format, &current.series_folder_format),
        season_folder_format: merge_text(&spec.season_folder_format, &current.season_folder_format),
        specials_folder_format: merge_text(&spec.specials_folder_format, &current.specials_folder_format),
    }
}

/// Applying the same spec again changes nothing more.
pub proof fn lemma_merge_idempotent(spec: SonarrNamingConfigSpec, current: NamingConfigResource)
    ensures
        merged(spec, merged(spec, current)) == merged(spec, current),
{
}

/// What the merge does to each setting: the one the spec gives is sent
/// (text settings as explicitly set), one the spec leaves out keeps its
/// current value, and the id is Sonarr's.
pub proof fn lemma_merge_per_setting(spec: SonarrNamingConfigSpec, current: NamingConfigResource)
    ensures
        ({
            let r = merged(spec, current);
            &&& r.id == current.id
            &&& spec.rename_episodes matches Some(v) ==> r.rename_episodes == Some(v)
            &&& spec.rename_episodes is None ==> r.rename_episodes == current.rename_episodes
            &&& spec.replace_illegal_characters matches Some(v) ==> r.replace_illegal_characters == Some(v)
            &&& spec.replace_illegal_characters is None ==> r.replace_illegal_characters == current.replace_illegal_characters
            &&& spec.colon_replacement_format matches Some(v) ==> r.colon_replacement_format == Some(v)
            &&& spec.colon_replacement_format is None ==> r.colon_replacement_format == current.colon_replacement_format
            &&& spec.custom_colon_replacement_format matches Some(v) ==> r.custom_colon_replacement_format == Some(Some(v))
            &&& spec.custom_colon_replacement_format is None ==> r.custom_colon_replacement_format == current.custom_colon_replacement_format
            &&& spec.multi_episode_style matches Some(v) ==> r.multi_episode_style == Some(v)
            &&& spec.multi_episode_style is None ==> r.multi_episode_style == current.multi_episode_style
            &&& spec.standard_episode_format matches Some(v) ==> r.standard_episode_format == Some(Some(v))
            &&& spec.standard_episode_format is None ==> r.standard_episode_format == current.standard_episode_format
            &&& spec.daily_episode_format matches Some(v) ==> r.daily_episode_format == Some(Some(v))
            &&& spec.daily_episode_format is None ==> r.daily_episode_format == current.daily_episode_format
            &&& spec.anime_episode_format matches Some(v) ==> r.anime_episode_format == Some(Some(v))
            &&& spec.anime_episode_format is None ==> r.anime_episode_format == current.anime_episode_format
            &&& spec.series_folder_format matches Some(v) ==> r.series_folder_format == Some(Some(v))
            &&& spec.series_folder_format is None ==> r.series_folder_format == current.series_folder_format
            &&& spec.season_folder_format matches Some(v) ==> r.season_folder_format == Some(Some(v))
            &&& spec.season_folder_format is None ==> r.season_folder_format == current.season_folder_format
            &&& spec.specials_folder_format matches Some(v) ==> r.specials_folder_format == Some(Some(v))
            &&& spec.specials_folder_format is None ==> r.specials_folder_format == current.specials_folder_format
        }),
{
}

/// The key reported when Sonarr's settings have no id.
pub const ID_KEY: &'static str = "naming_config.id";

} // verus!
