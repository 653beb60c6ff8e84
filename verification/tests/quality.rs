use sonarr_operator::api::models::{ListedItem, QualityDefinitionSummary};
use sonarr_operator::controllers::quality_definition::{quality_definition_update, quality_name};
use sonarr_operator::controllers::quality_profile::{build_format_items, build_quality_items, quality_profile_payload};
use sonarr_operator::crds::quality_definition::{QualityName, SonarrQualityDefinitionSpec};
use sonarr_operator::crds::quality_profile::{FormatItem, Quality, QualityGroup, SonarrQualityProfileSpec};
use sonarr_operator::crds::SonarrInstanceRef;
use sonarr_operator::error::Error;

fn q(id: i32, name: &str) -> Quality {
    Quality { id: Some(id), name: Some(name.to_string()), source: None, resolution: None }
}

fn def(id: i32, quality_id: i32, title: &str) -> QualityDefinitionSummary {
    QualityDefinitionSummary { id: Some(id), quality_id: Some(quality_id), title: Some(Some(title.to_string())) }
}

#[test]
fn quality_items_are_groups_then_the_rest_reversed() {
    let groups = vec![
        QualityGroup { id: None, name: None, qualities: vec![q(4, "HDTV-720p")] },
        QualityGroup { id: Some(1000), name: Some("WEB 1080p".to_string()), qualities: vec![q(3, "WEBDL-1080p"), q(15, "WEBRip-1080p")] },
    ];
    let defs = vec![def(1, 1, "SDTV"), def(2, 4, "HDTV-720p"), def(3, 3, "WEBDL-1080p"), def(4, 9, "HDTV-1080p")];
    let items = build_quality_items(&groups, &defs);
    assert_eq!(items.len(), 4);
    // reversed: HDTV-1080p (not allowed), SDTV (not allowed), WEB group, HDTV-720p
    assert!(!items[0].allowed);
    assert_eq!(items[0].quality.as_ref().unwrap().id, Some(9));
    assert_eq!(items[0].items.as_ref().unwrap().len(), 0);
    assert_eq!(items[1].quality.as_ref().unwrap().id, Some(1));
    assert!(items[2].allowed);
    assert_eq!(items[2].id, Some(1000));
    assert_eq!(items[2].name.as_deref(), Some("WEB 1080p"));
    assert!(items[2].quality.is_none());
    let subs = items[2].items.as_ref().unwrap();
    assert_eq!(subs.len(), 2);
    assert_eq!(subs[0].quality.id, Some(3));
    assert_eq!(subs[1].quality.name.as_deref(), Some("WEBRip-1080p"));
    assert!(items[3].allowed);
    assert!(items[3].id.is_none() && items[3].items.is_none());
    assert_eq!(items[3].quality.as_ref().unwrap().name.as_deref(), Some("HDTV-720p"));
}

#[test]
fn empty_group_is_a_group_without_qualities() {
    let groups = vec![QualityGroup { id: Some(7), name: Some("none".to_string()), qualities: vec![] }];
    let items = build_quality_items(&groups, &vec![]);
    assert_eq!(items.len(), 1);
    assert_eq!(items[0].items.as_ref().unwrap().len(), 0);
    assert_eq!(items[0].id, Some(7));
}

#[test]
fn format_items_score_the_rest_zero() {
    let spec_items = vec![FormatItem { format: Some(2), name: Some("x265".to_string()), score: 50 }, FormatItem { format: None, name: None, score: -5 }];
    let formats = vec![
        ListedItem { id: Some(1), name: None },
        ListedItem { id: Some(2), name: None },
        ListedItem { id: None, name: None },
        ListedItem { id: Some(3), name: None },
    ];
    let r = build_format_items(&spec_items, &formats);
    assert_eq!(r.len(), 4);
    assert_eq!((r[0].format, r[0].score), (Some(2), 50));
    assert_eq!(r[0].name.as_deref(), Some("x265"));
    assert_eq!((r[1].format, r[1].score), (None, -5));
    assert_eq!((r[2].format, r[2].score), (Some(1), 0));
    assert_eq!((r[3].format, r[3].score), (Some(3), 0));
    assert!(r[3].name.is_none());
}

#[test]
fn profile_upgrade_score_defaults_to_one() {
    let mut spec = SonarrQualityProfileSpec {
        sonarr_instance_ref: SonarrInstanceRef { name: "tv".to_string(), namespace: None },
        name: "HD".to_string(),
        upgrade_allowed: true,
        cutoff: 4,
        cutoff_format_score: Some(10),
        min_format_score: None,
        min_upgrade_format_score: None,
        quality_groups: vec![],
        format_items: vec![],
    };
    let p = quality_profile_payload(&spec, Some(3), vec![], vec![]);
    assert_eq!(p.min_upgrade_format_score, 1);
    assert_eq!(p.cutoff, 4);
    assert_eq!(p.cutoff_format_score, Some(10));
    assert_eq!(p.id, Some(3));
    spec.min_upgrade_format_score = Some(20);
    assert_eq!(quality_profile_payload(&spec, None, vec![], vec![]).min_upgrade_format_score, 20);
}

#[test]
fn quality_ids_follow_sonarr() {
    assert_eq!(QualityName::Unknown.to_quality_id(), 0);
    assert_eq!(QualityName::Webdl1080p.to_quality_id(), 3);
    assert_eq!(QualityName::Bluray1080pRemux.to_quality_id(), 30);
    assert_eq!(QualityName::Bluray2160pRemux.to_quality_id(), 31);
    assert_eq!(quality_name(&QualityName::Hdtv720p), "Hdtv720p");
}

#[test]
fn quality_definition_is_found_by_quality_id() {
    let spec = SonarrQualityDefinitionSpec {
        sonarr_instance_ref: SonarrInstanceRef { name: "tv".to_string(), namespace: None },
        quality_name: QualityName::Hdtv720p,
        title: None,
    };
    let defs = vec![def(10, 1, "SDTV"), def(11, 4, "HDTV-720p"), def(12, 4, "dup")];
    let u = quality_definition_update(&spec, &defs).ok().unwrap();
    assert_eq!(u.index, 1);
    assert_eq!(u.id, 11);
    assert_eq!(u.title, Some(Some("HDTV-720p".to_string())));
    let titled = SonarrQualityDefinitionSpec { title: Some("720p".to_string()), ..spec };
    assert_eq!(quality_definition_update(&titled, &defs).ok().unwrap().title, Some(Some("720p".to_string())));
}

#[test]
fn quality_definition_errors() {
    let spec = SonarrQualityDefinitionSpec {
        sonarr_instance_ref: SonarrInstanceRef { name: "tv".to_string(), namespace: None },
        quality_name: QualityName::Bluray2160p,
        title: None,
    };
    let r = quality_definition_update(&spec, &vec![def(1, 1, "SDTV")]);
    assert!(matches!(r, Err(Error::SonarrApiError(m)) if m == "Quality definition for Bluray2160p not found in Sonarr"));
    let no_id = vec![QualityDefinitionSummary { id: None, quality_id: Some(19), title: None }];
    assert!(matches!(quality_definition_update(&spec, &no_id), Err(Error::MissingObjectKey("quality_definition.id"))));
}
