use sonarr_operator::meta::Time;
use sonarr_operator::api::models::{DownloadProtocol as ApiProtocol, FieldValue, MonitorTypes as ApiMonitor, NewItemMonitorTypes as ApiNewItems, SeriesTypes as ApiSeriesTypes};
use sonarr_operator::controllers::{auto_tag, custom_format, delay_profile, download_client, import_list, indexer, language_profile, metadata, notification, root_folder, tag};
use sonarr_operator::controllers::traits::synced_status;
use sonarr_operator::crds::auto_tag::{AutoTagFields, AutoTagImplementation, AutoTagSpecification, SonarrAutoTagSpec};
use sonarr_operator::crds::custom_format::{CustomFormatImplementation, CustomFormatSpecification, SonarrCustomFormatSpec};
use sonarr_operator::crds::delay_profile::{DownloadProtocol, SonarrDelayProfileSpec};
use sonarr_operator::crds::download_client::{DownloadClientConfig, DownloadClientType, SonarrDownloadClientSpec};
use sonarr_operator::crds::import_list::{ImportListConfig, ImportListType, MonitorTypes, NewItemMonitorTypes, SeriesTypes, SonarrImportListSpec};
use sonarr_operator::crds::indexer::{IndexerConfig, IndexerType, SonarrIndexerSpec};
use sonarr_operator::crds::language_profile::{LanguageItem, LanguageType, SonarrLanguageProfileSpec};
use sonarr_operator::crds::metadata::{MetadataConfig, MetadataType, SonarrMetadataSpec};
use sonarr_operator::crds::notification::{NotificationConfig, NotificationTriggers, NotificationType, SonarrNotificationSpec};
use sonarr_operator::crds::root_folder::SonarrRootFolderSpec;
use sonarr_operator::crds::tag::SonarrTagSpec;
use sonarr_operator::crds::SonarrInstanceRef;

fn inst() -> SonarrInstanceRef {
    SonarrInstanceRef { name: "tv".to_string(), namespace: None }
}

#[test]
fn tag_payload_carries_label_and_id() {
    let t = tag::tag_payload(&SonarrTagSpec { sonarr_instance_ref: inst(), label: "4k".to_string() }, Some(3));
    assert_eq!(t.label, "4k");
    assert_eq!(t.id, Some(3));
}

#[test]
fn indexer_names_and_payload() {
    assert_eq!(indexer::get_implementation_name(&IndexerType::TorrentRss), "TorrentRssIndexer");
    assert_eq!(indexer::get_implementation_name(&IndexerType::Newznab), "Newznab");
    assert_eq!(indexer::get_implementation_name(&IndexerType::HDBits), "HDBits");
    let spec = SonarrIndexerSpec {
        sonarr_instance_ref: inst(),
        name: "nzb".to_string(),
        indexer_type: IndexerType::Torznab,
        enable_rss: true,
        enable_automatic_search: false,
        enable_interactive_search: true,
        priority: 25,
        download_client_id: None,
        tags: vec![1, 2],
        config: IndexerConfig {
            base_url: None, api_path: None, api_key: None, api_key_secret_ref: None, categories: vec![],
            anime_categories: vec![], anime_standard_format_search: false, additional_parameters: None,
            minimum_seeders: None, seed_time: None, cookie: None, username: None, password_secret_ref: None, passkey: None,
        },
    };
    let p = indexer::indexer_payload(&spec, None);
    assert_eq!(p.name, "nzb");
    assert_eq!(p.implementation, "Torznab");
    assert!(p.enable_rss && !p.enable_automatic_search && p.enable_interactive_search);
    assert_eq!(p.priority, 25);
    assert_eq!(p.tags, vec![1, 2]);
    assert_eq!(p.id, None);
}

#[test]
fn download_client_names_and_payload() {
    assert_eq!(download_client::get_implementation_name(&DownloadClientType::NzbGet), "Nzbget");
    assert_eq!(download_client::get_implementation_name(&DownloadClientType::SABnzbd), "Sabnzbd");
    assert_eq!(download_client::get_implementation_name(&DownloadClientType::QBittorrent), "QBittorrent");
    let spec = SonarrDownloadClientSpec {
        sonarr_instance_ref: inst(),
        name: "qb".to_string(),
        enable: true,
        download_client_type: DownloadClientType::QBittorrent,
        priority: 1,
        remove_completed_downloads: true,
        remove_failed_downloads: false,
        tags: vec![],
        config: DownloadClientConfig::default(),
    };
    let p = download_client::download_client_payload(&spec, Some(9));
    assert_eq!(p.implementation, "QBittorrent");
    assert_eq!(p.id, Some(9));
    assert!(p.remove_completed_downloads && !p.remove_failed_downloads);
}

#[test]
fn notification_names_and_payload() {
    assert_eq!(notification::get_implementation_name(&NotificationType::Emby), "MediaBrowser");
    assert_eq!(notification::get_implementation_name(&NotificationType::Kodi), "Xbmc");
    assert_eq!(notification::get_implementation_name(&NotificationType::Plex), "PlexServer");
    assert_eq!(notification::get_implementation_name(&NotificationType::Discord), "Discord");
    let mut triggers = NotificationTriggers::default();
    triggers.on_grab = true;
    triggers.on_health_issue = true;
    triggers.on_import_complete = true;
    let spec = SonarrNotificationSpec {
        sonarr_instance_ref: inst(),
        name: "hook".to_string(),
        notification_type: NotificationType::Webhook,
        tags: vec![4],
        triggers,
        config: NotificationConfig::default(),
    };
    let p = notification::notification_payload(&spec, None);
    assert_eq!(p.implementation, "Webhook");
    assert!(p.on_grab && p.on_health_issue);
    assert!(!p.on_download && !p.on_upgrade && !p.include_health_warnings);
    assert_eq!(p.tags, vec![4]);
}

#[test]
fn import_list_converts_monitoring_and_type() {
    assert_eq!(import_list::get_implementation_name(&ImportListType::AniListImport), "AniListImport");
    assert_eq!(import_list::convert_monitor_type(&MonitorTypes::NoEpisodes), ApiMonitor::NoEpisodes);
    assert_eq!(import_list::convert_monitor_type(&MonitorTypes::LatestSeason), ApiMonitor::LatestSeason);
    assert_eq!(import_list::convert_new_item_monitor_type(&NewItemMonitorTypes::NoItems), ApiNewItems::NoItems);
    assert_eq!(import_list::convert_series_type(&SeriesTypes::Anime), ApiSeriesTypes::Anime);
    let spec = SonarrImportListSpec {
        sonarr_instance_ref: inst(),
        name: "trakt".to_string(),
        list_type: ImportListType::TraktListImport,
        enable_automatic_add: true,
        search_for_missing_episodes: true,
        should_monitor: MonitorTypes::Future,
        monitor_new_items: NewItemMonitorTypes::All,
        root_folder_path: "/tv".to_string(),
        quality_profile_id: 2,
        series_type: SeriesTypes::Daily,
        season_folder: true,
        list_order: 0,
        tags: vec![],
        config: ImportListConfig::default(),
    };
    let p = import_list::import_list_payload(&spec, Some(1));
    assert_eq!(p.implementation, "TraktListImport");
    assert_eq!(p.should_monitor, ApiMonitor::Future);
    assert_eq!(p.monitor_new_items, ApiNewItems::All);
    assert_eq!(p.series_type, ApiSeriesTypes::Daily);
    assert_eq!(p.root_folder_path, "/tv");
    assert_eq!(p.quality_profile_id, 2);
}

#[test]
fn metadata_contract_names() {
    assert_eq!(metadata::get_implementation_name(&MetadataType::WdtvMetadata), "WdtvMetadata");
    assert_eq!(metadata::get_config_contract(&MetadataType::XbmcMetadata), "XbmcMetadataSettings");
    assert_eq!(metadata::get_config_contract(&MetadataType::RoksboxMetadata), "RoksboxMetadataSettings");
    let spec = SonarrMetadataSpec {
        sonarr_instance_ref: inst(),
        name: "kodi".to_string(),
        metadata_type: MetadataType::XbmcMetadata,
        enable: true,
        tags: vec![],
        config: MetadataConfig::default(),
    };
    let p = metadata::metadata_payload(&spec, None);
    assert_eq!(p.config_contract, "XbmcMetadataSettings");
    assert!(p.enable);
}

#[test]
fn delay_profile_converts_protocol() {
    assert_eq!(delay_profile::convert_protocol(&DownloadProtocol::Torrent), ApiProtocol::Torrent);
    let spec = SonarrDelayProfileSpec {
        sonarr_instance_ref: inst(),
        enable_usenet: true,
        enable_torrent: false,
        preferred_protocol: DownloadProtocol::Usenet,
        usenet_delay: 60,
        torrent_delay: 120,
        bypass_if_highest_quality: true,
        bypass_if_above_custom_format_score: false,
        minimum_custom_format_score: 5,
        order: 2,
        tags: vec![7],
    };
    let p = delay_profile::delay_profile_payload(&spec, Some(2));
    assert_eq!(p.preferred_protocol, ApiProtocol::Usenet);
    assert_eq!(p.usenet_delay, 60);
    assert_eq!(p.torrent_delay, 120);
    assert_eq!(p.minimum_custom_format_score, 5);
    assert_eq!(p.id, Some(2));
}

#[test]
fn auto_tag_fields_are_listed_when_set() {
    assert_eq!(auto_tag::get_implementation_name(&AutoTagImplementation::YearSpecification), "YearSpecification");
    let year = AutoTagSpecification {
        name: "90s".to_string(),
        implementation: AutoTagImplementation::YearSpecification,
        negate: false,
        required: true,
        fields: AutoTagFields { value: None, min: Some(1990), max: Some(1999) },
    };
    let s = auto_tag::convert_specification(&year);
    let f = s.fields.unwrap();
    assert_eq!(f.len(), 2);
    assert_eq!(f[0].name, "min");
    assert!(matches!(f[0].value, FieldValue::Number(1990)));
    assert_eq!(f[1].name, "max");
    assert!(matches!(f[1].value, FieldValue::Number(1999)));
    let genre = AutoTagSpecification {
        name: "anime".to_string(),
        implementation: AutoTagImplementation::GenreSpecification,
        negate: true,
        required: false,
        fields: AutoTagFields { value: Some("Anime".to_string()), min: None, max: None },
    };
    let g = auto_tag::convert_specification(&genre);
    let gf = g.fields.unwrap();
    assert_eq!(gf.len(), 1);
    assert_eq!(gf[0].name, "value");
    assert!(matches!(&gf[0].value, FieldValue::Text(t) if t == "Anime"));
    assert!(g.negate && !g.required);
    let empty = AutoTagSpecification {
        name: "any".to_string(),
        implementation: AutoTagImplementation::TagSpecification,
        negate: false,
        required: true,
        fields: AutoTagFields::default(),
    };
    assert!(auto_tag::convert_specification(&empty).fields.is_none());
    let spec = SonarrAutoTagSpec {
        sonarr_instance_ref: inst(),
        name: "rule".to_string(),
        remove_tags_automatically: true,
        tags: vec![1],
        specifications: vec![year, genre],
    };
    let p = auto_tag::auto_tag_payload(&spec, None);
    assert_eq!(p.specifications.len(), 2);
    assert_eq!(p.specifications[1].implementation, "GenreSpecification");
    assert!(p.remove_tags_automatically);
}

#[test]
fn custom_format_specifications_keep_their_flags() {
    let spec = SonarrCustomFormatSpec {
        sonarr_instance_ref: inst(),
        name: "x265".to_string(),
        include_custom_format_when_renaming: true,
        specifications: vec![CustomFormatSpecification {
            name: "hevc".to_string(),
            implementation: CustomFormatImplementation::ReleaseTitleSpecification,
            negate: true,
            required: false,
        }],
    };
    let p = custom_format::custom_format_payload(&spec, Some(5));
    assert_eq!(p.name, "x265");
    assert!(p.include_custom_format_when_renaming);
    assert_eq!(p.specifications[0].implementation, "ReleaseTitleSpecification");
    assert!(p.specifications[0].negate);
    assert_eq!(p.id, Some(5));
}

#[test]
fn language_ids_and_names() {
    assert_eq!(language_profile::get_language_id(&LanguageType::Unknown), -1);
    assert_eq!(language_profile::get_language_id(&LanguageType::English), 1);
    assert_eq!(language_profile::get_language_id(&LanguageType::PortugueseBrazil), 30);
    assert_eq!(language_profile::get_language_id(&LanguageType::Malay), 48);
    assert_eq!(language_profile::get_language_id(&LanguageType::Original), -2);
    assert_eq!(language_profile::get_language_id(&LanguageType::Any), 0);
    let l = language_profile::convert_language(&LanguageType::SpanishLatino);
    assert_eq!(l.id, 37);
    assert_eq!(l.name, "SpanishLatino");
    let spec = SonarrLanguageProfileSpec {
        sonarr_instance_ref: inst(),
        name: "en".to_string(),
        upgrade_allowed: true,
        cutoff_language: LanguageType::English,
        languages: vec![
            LanguageItem { language: LanguageType::English, allowed: true },
            LanguageItem { language: LanguageType::Japanese, allowed: false },
        ],
    };
    let p = language_profile::language_profile_payload(&spec, None);
    assert_eq!(p.cutoff.id, 1);
    assert_eq!(p.languages.len(), 2);
    assert_eq!(p.languages[1].language.id, 8);
    assert_eq!(p.languages[1].language.name, "Japanese");
    assert!(!p.languages[1].allowed);
}

#[test]
fn root_folder_status_reports_the_folder() {
    let spec = SonarrRootFolderSpec { sonarr_instance_ref: inst(), path: "/tv".to_string() };
    assert_eq!(root_folder::root_folder_payload(&spec).path, "/tv");
    let synced = synced_status(None, Some(3), Some(2), "Root folder synchronized with Sonarr", Time { nanos: 5 });
    let st = root_folder::root_folder_status(synced, Some(true), Some(Some(1024)));
    assert_eq!(st.id, Some(3));
    assert_eq!(st.accessible, Some(true));
    assert_eq!(st.free_space, Some(1024));
    assert_eq!(st.observed_generation, 2);
    let synced = synced_status(None, None, None, "m", Time { nanos: 5 });
    assert_eq!(root_folder::root_folder_status(synced, None, Some(None)).free_space, None);
}
