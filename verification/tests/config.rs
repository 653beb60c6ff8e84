use sonarr_operator::meta::Time;
use sonarr_operator::api::models::{FileDateType as ApiFileDate, IndexerConfigResource, MediaManagementConfigResource, NamingConfigResource, DownloadClientConfigResource};
use sonarr_operator::controllers::singleton::{check_singleton, config_status, config_step, settings_id, ConfigCommand, ConfigEntry, ConfigEvent, ConfigPhase};
use sonarr_operator::controllers::{download_client_config, indexer_config, media_management_config, naming_config};
use sonarr_operator::crds::download_client_config::SonarrDownloadClientConfigSpec;
use sonarr_operator::crds::indexer_config::SonarrIndexerConfigSpec;
use sonarr_operator::crds::media_management_config::{FileDateType, SonarrMediaManagementConfigSpec};
use sonarr_operator::crds::naming_config::SonarrNamingConfigSpec;
use sonarr_operator::crds::SonarrInstanceRef;
use sonarr_operator::error::Error;

fn entry(name: &str, r: &str, ns: Option<&str>, created: bool) -> ConfigEntry {
    ConfigEntry { name: name.to_string(), ref_name: r.to_string(), ref_namespace: ns.map(|n| n.to_string()), created }
}

fn inst() -> SonarrInstanceRef {
    SonarrInstanceRef { name: "tv".to_string(), namespace: None }
}

#[test]
fn another_config_for_the_same_instance_conflicts() {
    let list = vec![entry("mine", "tv", None, true), entry("other-ns", "tv", Some("x"), true), entry("second", "tv", None, false), entry("third", "tv", None, true)];
    assert_eq!(check_singleton(&list, "media", "mine", "tv", &None, false), Some("second".to_string()));
    assert_eq!(check_singleton(&list, "media", "mine", "tv", &None, true), Some("third".to_string()));
    assert_eq!(check_singleton(&list, "media", "mine", "tv", &Some("x".to_string()), false), Some("other-ns".to_string()));
    assert_eq!(check_singleton(&list, "media", "mine", "anime", &None, false), None);
    assert_eq!(check_singleton(&vec![entry("mine", "tv", None, true)], "media", "mine", "tv", &None, false), None);
    // A reference without a namespace points into the resources' own one.
    assert_eq!(check_singleton(&list, "media", "mine", "tv", &Some("media".to_string()), false), Some("second".to_string()));
    assert_eq!(check_singleton(&list, "x", "mine", "tv", &None, false), Some("other-ns".to_string()));
    let named = vec![entry("mine", "tv", None, true), entry("named", "tv", Some("media"), true)];
    assert_eq!(check_singleton(&named, "media", "mine", "tv", &None, false), Some("named".to_string()));
    assert_eq!(check_singleton(&named, "other", "mine", "tv", &None, false), None);
}

#[test]
fn a_conflicting_config_is_reported_and_not_applied() {
    let ns = Some("media".to_string());
    let step = |phase, event: &ConfigEvent| config_step("media", "mine", "tv", &ns, false, phase, event);
    assert_eq!(step(ConfigPhase::Start, &ConfigEvent::Begin), (ConfigPhase::Checking, ConfigCommand::List));
    let clash = ConfigEvent::Listed(vec![entry("other", "tv", None, false)]);
    assert_eq!(step(ConfigPhase::Checking, &clash), (ConfigPhase::Reporting, ConfigCommand::Report(Some("other".to_string()))));
    let alone = ConfigEvent::Listed(vec![entry("mine", "tv", None, false), entry("other", "anime", None, false)]);
    assert_eq!(step(ConfigPhase::Checking, &alone), (ConfigPhase::Applying, ConfigCommand::Apply));
    assert_eq!(step(ConfigPhase::Applying, &ConfigEvent::Applied), (ConfigPhase::Reporting, ConfigCommand::Report(None)));
    assert_eq!(step(ConfigPhase::Reporting, &ConfigEvent::Reported), (ConfigPhase::Done, ConfigCommand::Finish));
    assert_eq!(step(ConfigPhase::Done, &ConfigEvent::Applied), (ConfigPhase::Failed, ConfigCommand::Abort));
}

#[test]
fn conflict_status_names_the_other_config() {
    let st = config_status(None, Some(2), &Some("second".to_string()), "Naming config synchronized with Sonarr", Time { nanos: 5 });
    assert_eq!(st.observed_generation, 2);
    assert_eq!(st.conditions.len(), 1);
    assert_eq!(st.conditions[0].status, "False");
    assert_eq!(st.conditions[0].reason, "Conflict");
    assert_eq!(st.conditions[0].message, "Another config 'second' already exists for this Sonarr instance");
    let ok = config_status(Some(&st.conditions), None, &None, "Naming config synchronized with Sonarr", Time { nanos: 5 });
    assert_eq!(ok.conditions.len(), 1);
    assert_eq!(ok.conditions[0].status, "True");
    assert_eq!(ok.conditions[0].reason, "Synced");
    assert_eq!(ok.observed_generation, 0);
}

#[test]
fn settings_need_an_id() {
    assert_eq!(settings_id(Some(1), naming_config::ID_KEY).ok(), Some(1));
    assert!(matches!(settings_id(None, naming_config::ID_KEY), Err(Error::MissingObjectKey("naming_config.id"))));
    assert_eq!(media_management_config::ID_KEY, "media_management_config.id");
}

#[test]
fn naming_spec_overrides_and_keeps_the_rest() {
    let spec = SonarrNamingConfigSpec {
        sonarr_instance_ref: inst(),
        rename_episodes: Some(true),
        replace_illegal_characters: None,
        colon_replacement_format: None,
        custom_colon_replacement_format: None,
        multi_episode_style: Some(5),
        standard_episode_format: Some("{Series Title} - {episode:00}".to_string()),
        daily_episode_format: None,
        anime_episode_format: None,
        series_folder_format: None,
        season_folder_format: None,
        specials_folder_format: None,
    };
    let current = NamingConfigResource {
        id: Some(1),
        rename_episodes: Some(false),
        replace_illegal_characters: Some(true),
        colon_replacement_format: Some(4),
        custom_colon_replacement_format: Some(None),
        multi_episode_style: Some(0),
        standard_episode_format: Some(Some("old".to_string())),
        daily_episode_format: Some(Some("daily".to_string())),
        anime_episode_format: None,
        series_folder_format: Some(Some("{Series Title}".to_string())),
        season_folder_format: None,
        specials_folder_format: None,
    };
    let m = naming_config::merge_settings(&spec, &current);
    assert_eq!(m.id, Some(1));
    assert_eq!(m.rename_episodes, Some(true));
    assert_eq!(m.replace_illegal_characters, Some(true));
    assert_eq!(m.multi_episode_style, Some(5));
    assert_eq!(m.standard_episode_format, Some(Some("{Series Title} - {episode:00}".to_string())));
    assert_eq!(m.daily_episode_format, Some(Some("daily".to_string())));
    assert_eq!(m.custom_colon_replacement_format, Some(None));
    let again = naming_config::merge_settings(&spec, &m);
    assert_eq!(again.standard_episode_format, m.standard_episode_format);
    assert_eq!(again.rename_episodes, m.rename_episodes);
    assert_eq!(again.daily_episode_format, m.daily_episode_format);
}

#[test]
fn indexer_and_download_settings_merge() {
    let spec = SonarrIndexerConfigSpec { sonarr_instance_ref: inst(), minimum_age: Some(10), retention: None, maximum_size: None, rss_sync_interval: Some(30) };
    let cur = IndexerConfigResource { id: Some(1), minimum_age: Some(0), retention: Some(3000), maximum_size: None, rss_sync_interval: Some(15) };
    let m = indexer_config::merge_settings(&spec, &cur);
    assert_eq!((m.minimum_age, m.retention, m.maximum_size, m.rss_sync_interval), (Some(10), Some(3000), None, Some(30)));
    let dspec = SonarrDownloadClientConfigSpec {
        sonarr_instance_ref: inst(),
        download_client_working_folders: Some("_UNPACK_".to_string()),
        enable_completed_download_handling: None,
        auto_redownload_failed: Some(false),
        auto_redownload_failed_from_interactive_search: None,
    };
    let dcur = DownloadClientConfigResource {
        id: Some(1),
        download_client_working_folders: Some(Some("x".to_string())),
        enable_completed_download_handling: Some(true),
        auto_redownload_failed: Some(true),
        auto_redownload_failed_from_interactive_search: Some(true),
    };
    let d = download_client_config::merge_settings(&dspec, &dcur);
    assert_eq!(d.download_client_working_folders, Some(Some("_UNPACK_".to_string())));
    assert_eq!(d.enable_completed_download_handling, Some(true));
    assert_eq!(d.auto_redownload_failed, Some(false));
}

#[test]
fn media_management_converts_choices() {
    let spec = SonarrMediaManagementConfigSpec {
        sonarr_instance_ref: inst(),
        auto_unmonitor_previously_downloaded_episodes: None,
        recycle_bin: Some("/trash".to_string()),
        recycle_bin_cleanup_days: None,
        download_propers_and_repacks: None,
        create_empty_series_folders: Some(true),
        delete_empty_folders: None,
        file_date: Some(FileDateType::NoDate),
        rescan_after_refresh: None,
        set_permissions_linux: None,
        chmod_folder: None,
        chown_group: None,
        episode_title_required: None,
        skip_free_space_check_when_importing: None,
        minimum_free_space_when_importing: Some(100),
        copy_using_hardlinks: None,
        use_script_import: None,
        script_import_path: None,
        import_extra_files: None,
        extra_file_extensions: None,
        enable_media_info: None,
    };
    let cur = MediaManagementConfigResource {
        id: Some(1),
        auto_unmonitor_previously_downloaded_episodes: Some(false),
        recycle_bin: None,
        recycle_bin_cleanup_days: Some(7),
        download_propers_and_repacks: None,
        create_empty_series_folders: Some(false),
        delete_empty_folders: Some(false),
        file_date: Some(ApiFileDate::LocalAirDate),
        rescan_after_refresh: None,
        set_permissions_linux: None,
        chmod_folder: Some(Some("755".to_string())),
        chown_group: None,
        episode_title_required: None,
        skip_free_space_check_when_importing: None,
        minimum_free_space_when_importing: Some(50),
        copy_using_hardlinks: Some(true),
        use_script_import: None,
        script_import_path: None,
        import_extra_files: None,
        extra_file_extensions: None,
        enable_media_info: Some(true),
    };
    let m = media_management_config::merge_settings(&spec, &cur);
    assert_eq!(m.recycle_bin, Some(Some("/trash".to_string())));
    assert_eq!(m.recycle_bin_cleanup_days, Some(7));
    assert_eq!(m.create_empty_series_folders, Some(true));
    assert_eq!(m.file_date, Some(ApiFileDate::NoDate));
    assert_eq!(m.chmod_folder, Some(Some("755".to_string())));
    assert_eq!(m.minimum_free_space_when_importing, Some(100));
    assert_eq!(m.enable_media_info, Some(true));
}
