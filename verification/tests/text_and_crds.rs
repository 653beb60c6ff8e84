use sonarr_operator::crdgen::{crd_by_name, crd_file, crd_name, get_all_crds, wrap_for_helm, CrdKind, METADATA_INJECTION};
use sonarr_operator::string_map::StringMap;
use sonarr_operator::text::{concat3, find_str, i32_to_string, i64_to_string, str_eq, trim_end_matches_char};

#[test]
fn decimal_text() {
    assert_eq!(i64_to_string(0), "0");
    assert_eq!(i64_to_string(-42), "-42");
    assert_eq!(i64_to_string(i64::MAX), "9223372036854775807");
    assert_eq!(i64_to_string(i64::MIN), "-9223372036854775808");
    assert_eq!(i32_to_string(8989), "8989");
}

#[test]
fn trimming_and_searching() {
    assert_eq!(trim_end_matches_char("http://x///", '/'), "http://x");
    assert_eq!(trim_end_matches_char("///", '/'), "");
    assert_eq!(trim_end_matches_char("abc", '/'), "abc");
    assert_eq!(find_str("a metadata:\nb metadata:\n", "metadata:\n"), Some(2));
    assert_eq!(find_str("abc", "abcd"), None);
    assert_eq!(find_str("abc", ""), Some(0));
    assert_eq!(find_str("héllo wörld", "wö"), Some(6));
    assert!(str_eq("a", "a") && !str_eq("a", "b"));
    assert_eq!(concat3("a", "/", "b"), "a/b");
}

#[test]
fn string_map_insert_replace_remove() {
    let mut m = StringMap::new();
    assert!(m.is_empty());
    m.insert("a".to_string(), "1".to_string());
    m.insert("b".to_string(), "2".to_string());
    m.insert("a".to_string(), "3".to_string());
    assert_eq!(m.entries().len(), 2);
    assert_eq!(m.get(&"a".to_string()).map(|s| s.as_str()), Some("3"));
    m.remove(&"a".to_string());
    assert!(m.get(&"a".to_string()).is_none());
    let pairs = vec![("x".to_string(), "1".to_string()), ("x".to_string(), "2".to_string())];
    let p = StringMap::from_pairs(&pairs);
    assert_eq!(p.entries().len(), 1);
    assert_eq!(p.get(&"x".to_string()).map(|s| s.as_str()), Some("2"));
    let mut base = StringMap::new();
    base.insert("x".to_string(), "0".to_string());
    base.insert("y".to_string(), "9".to_string());
    base.extend_from(&p);
    assert_eq!(base.get(&"x".to_string()).map(|s| s.as_str()), Some("2"));
    assert_eq!(base.get(&"y".to_string()).map(|s| s.as_str()), Some("9"));
}

#[test]
fn helm_wrapping_injects_after_metadata() {
    let yaml = "apiVersion: v1\nkind: CustomResourceDefinition\nmetadata:\n  name: x\nspec: {}\n";
    let out = wrap_for_helm(yaml);
    let expected = format!(
        "{{{{- if .Values.crds.install }}}}\napiVersion: v1\nkind: CustomResourceDefinition\nmetadata:\n{}  name: x\nspec: {{}}\n{{{{- end }}}}\n",
        METADATA_INJECTION
    );
    assert_eq!(out, expected);
    assert!(out.contains("helm.sh/resource-policy: keep"));
}

#[test]
fn helm_wrapping_without_anchor_only_guards() {
    assert_eq!(wrap_for_helm("kind: X"), "{{- if .Values.crds.install }}\nkind: X\n{{- end }}\n");
    assert_eq!(wrap_for_helm(""), "{{- if .Values.crds.install }}\n\n{{- end }}\n");
    assert_eq!(wrap_for_helm("a\n"), "{{- if .Values.crds.install }}\na\n{{- end }}\n");
}

#[test]
fn crd_table() {
    let all = get_all_crds();
    assert_eq!(all.len(), 19);
    assert_eq!(all[0], CrdKind::Sonarr);
    assert_eq!(crd_file(CrdKind::SonarrMediaManagementConfig), "mediamanagementconfig.yaml");
    assert_eq!(crd_name(CrdKind::SonarrTag), "SonarrTag");
    assert_eq!(crd_by_name("SonarrSeries"), Some(CrdKind::SonarrSeries));
    assert_eq!(crd_by_name("Radarr"), None);
    let mut files: Vec<&str> = all.iter().map(|k| crd_file(*k)).collect();
    files.sort();
    files.dedup();
    assert_eq!(files.len(), 19);
}
