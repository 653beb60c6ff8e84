//! The custom resource definitions the operator installs: their kinds,
//! the files they are written to, and the Helm templating a chart wraps
//! around each.

use vstd::prelude::*;
use crate::text::{find_str, occurs_at, str_eq};

verus! {

/// The kinds of custom resource the operator defines, in the order they are
/// generated.
#[derive(Clone, Copy, Debug, PartialEq, Eq, Structural)]
pub enum CrdKind {
    Sonarr,
    SonarrAutoTag,
    SonarrCustomFormat,
    SonarrDelayProfile,
    SonarrDownloadClient,
    SonarrDownloadClientConfig,
    SonarrImportList,
    SonarrIndexer,
    SonarrIndexerConfig,
    SonarrLanguageProfile,
    SonarrMediaManagementConfig,
    SonarrMetadata,
    SonarrNamingConfig,
    SonarrNotification,
    SonarrQualityDefinition,
    SonarrQualityProfile,
    SonarrRootFolder,
    SonarrSeries,
    SonarrTag,
}

/// The name of a kind.
pub open spec fn spec_crd_name(k: CrdKind) -> Seq<char> {
    match k {
        CrdKind::Sonarr => "Sonarr"@,
        CrdKind::SonarrAutoTag => "SonarrAutoTag"@,
        CrdKind::SonarrCustomFormat => "SonarrCustomFormat"@,
        CrdKind::SonarrDelayProfile => "SonarrDelayProfile"@,
        CrdKind::SonarrDownloadClient => "SonarrDownloadClient"@,
        CrdKind::SonarrDownloadClientConfig => "SonarrDownloadClientConfig"@,
        CrdKind::SonarrImportList => "SonarrImportList"@,
        CrdKind::SonarrIndexer => "SonarrIndexer"@,
        CrdKind::SonarrIndexerConfig => "SonarrIndexerConfig"@,
        CrdKind::SonarrLanguageProfile => "SonarrLanguageProfile"@,
        CrdKind::SonarrMediaManagementConfig => "SonarrMediaManagementConfig"@,
        CrdKind::SonarrMetadata => "SonarrMetadata"@,
        CrdKind::SonarrNamingConfig => "SonarrNamingConfig"@,
        CrdKind::SonarrNotification => "SonarrNotification"@,
        CrdKind::SonarrQualityDefinition => "SonarrQualityDefinition"@,
        CrdKind::SonarrQualityProfile => "SonarrQualityProfile"@,
        CrdKind::SonarrRootFolder => "SonarrRootFolder"@,
        CrdKind::SonarrSeries => "SonarrSeries"@,
        CrdKind::SonarrTag => "SonarrTag"@,
    }
}

/// The file a kind's definition is written to.
pub open spec fn spec_crd_file(k: CrdKind) -> Seq<char> {
    match k {
        CrdKind::Sonarr => "sonarr.yaml"@,
        CrdKind::SonarrAutoTag => "autotag.yaml"@,
        CrdKind::SonarrCustomFormat => "customformat.yaml"@,
        CrdKind::SonarrDelayProfile => "delayprofile.yaml"@,
        CrdKind::SonarrDownloadClient => "downloadclient.yaml"@,
        CrdKind::SonarrDownloadClientConfig => "downloadclientconfig.yaml"@,
        CrdKind::SonarrImportList => "importlist.yaml"@,
        CrdKind::SonarrIndexer => "indexer.yaml"@,
        CrdKind::SonarrIndexerConfig => "indexerconfig.yaml"@,
        CrdKind::SonarrLanguageProfile => "languageprofile.yaml"@,
        CrdKind::SonarrMediaManagementConfig => "mediamanagementconfig.yaml"@,
        CrdKind::SonarrMetadata => "metadata.yaml"@,
        CrdKind::SonarrNamingConfig => "namingconfig.yaml"@,
        CrdKind::SonarrNotification => "notification.yaml"@,
        CrdKind::SonarrQualityDefinition => "qualitydefinition.yaml"@,
        CrdKind::SonarrQualityProfile => "qualityprofile.yaml"@,
        CrdKind::SonarrRootFolder => "rootfolder.yaml"@,
        CrdKind::SonarrSeries => "series.yaml"@,
        CrdKind::SonarrTag => "tag.yaml"@,
    }
}

/// The kinds, in the order they are generated.
pub open spec fn spec_all_kinds() -> Seq<CrdKind> {
    seq![CrdKind::Sonarr, CrdKind::SonarrAutoTag, CrdKind::SonarrCustomFormat, CrdKind::SonarrDelayProfile, CrdKind::SonarrDownloadClient, CrdKind::SonarrDownloadClientConfig, CrdKind::SonarrImportList, CrdKind::SonarrIndexer, CrdKind::SonarrIndexerConfig, CrdKind::SonarrLanguageProfile, CrdKind::SonarrMediaManagementConfig, CrdKind::SonarrMetadata, CrdKind::SonarrNamingConfig, CrdKind::SonarrNotification, CrdKind::SonarrQualityDefinition, CrdKind::SonarrQualityProfile, CrdKind::SonarrRootFolder, CrdKind::SonarrSeries, CrdKind::SonarrTag]
}

/// The name of a kind.
pub fn crd_name(k: CrdKind) -> (s: &'static str)
    ensures
        s@ == spec_crd_name(k),
{
    match k {
        CrdKind::Sonarr => "Sonarr",
        CrdKind::SonarrAutoTag => "SonarrAutoTag",
        CrdKind::SonarrCustomFormat => "SonarrCustomFormat",
        CrdKind::SonarrDelayProfile => "SonarrDelayProfile",
        CrdKind::SonarrDownloadClient => "SonarrDownloadClient",
        CrdKind::SonarrDownloadClientConfig => "SonarrDownloadClientConfig",
        CrdKind::SonarrImportList => "SonarrImportList",
        CrdKind::SonarrIndexer => "SonarrIndexer",
        CrdKind::SonarrIndexerConfig => "SonarrIndexerConfig",
        CrdKind::SonarrLanguageProfile => "SonarrLanguageProfile",
        CrdKind::SonarrMediaManagementConfig => "SonarrMediaManagementConfig",
        CrdKind::SonarrMetadata => "SonarrMetadata",
        CrdKind::SonarrNamingConfig => "SonarrNamingConfig",
        CrdKind::SonarrNotification => "SonarrNotification",
        CrdKind::SonarrQualityDefinition => "SonarrQualityDefinition",
        CrdKind::SonarrQualityProfile => "SonarrQualityProfile",
        CrdKind::SonarrRootFolder => "SonarrRootFolder",
        CrdKind::SonarrSeries => "SonarrSeries",
        CrdKind::SonarrTag => "SonarrTag",
    }
}

/// The file a kind's definition is written to.
pub fn crd_file(k: CrdKind) -> (s: &'static str)
    ensures
        s@ == spec_crd_file(k),
{
    match k {
        CrdKind::Sonarr => "sonarr.yaml",
        CrdKind::SonarrAutoTag => "autotag.yaml",
        CrdKind::SonarrCustomFormat => "customformat.yaml",
        CrdKind::SonarrDelayProfile => "delayprofile.yaml",
        CrdKind::SonarrDownloadClient => "downloadclient.yaml",
        CrdKind::SonarrDownloadClientConfig => "downloadclientconfig.yaml",
        CrdKind::SonarrImportList => "importlist.yaml",
        CrdKind::SonarrIndexer => "indexer.yaml",
        CrdKind::SonarrIndexerConfig => "indexerconfig.yaml",
        CrdKind::SonarrLanguageProfile => "languageprofile.yaml",
        CrdKind::SonarrMediaManagementConfig => "mediamanagementconfig.yaml",
        CrdKind::SonarrMetadata => "metadata.yaml",
        CrdKind::SonarrNamingConfig => "namingconfig.yaml",
        CrdKind::SonarrNotification => "notification.yaml",
        CrdKind::SonarrQualityDefinition => "qualitydefinition.yaml",
        CrdKind::SonarrQualityProfile => "qualityprofile.yaml",
        CrdKind::SonarrRootFolder => "rootfolder.yaml",
        CrdKind::SonarrSeries => "series.yaml",
        CrdKind::SonarrTag => "tag.yaml",
    }
}

/// All kinds, in the order they are generated.
pub fn get_all_crds() -> (v: Vec<CrdKind>)
    ensures
        v@ == spec_all_kinds(),
{
    let v = vec![CrdKind::Sonarr, CrdKind::SonarrAutoTag, CrdKind::SonarrCustomFormat, CrdKind::SonarrDelayProfile, CrdKind::SonarrDownloadClient, CrdKind::SonarrDownloadClientConfig, CrdKind::SonarrImportList, CrdKind::SonarrIndexer, CrdKind::SonarrIndexerConfig, CrdKind::SonarrLanguageProfile, CrdKind::SonarrMediaManagementConfig, CrdKind::SonarrMetadata, CrdKind::SonarrNamingConfig, CrdKind::SonarrNotification, CrdKind::SonarrQualityDefinition, CrdKind::SonarrQualityProfile, CrdKind::SonarrRootFolder, CrdKind::SonarrSeries, CrdKind::SonarrTag];
    assert(v@ =~= spec_all_kinds());
    v
}

/// The kind with a given name, if any: the first of the generated kinds
/// with that name.
pub fn crd_by_name(name: &str) -> (r: Option<CrdKind>)
    ensures
        match r {
            Some(k) => spec_crd_name(k) == name@ && spec_all_kinds().contains(k),
            None => forall|i: int| 0 <= i < spec_all_kinds().len() ==> spec_crd_name(#[trigger] spec_all_kinds()[i]) != name@,
        },
{
    let kinds = get_all_crds();
    let n = kinds.len();
    let mut i: usize = 0;
    while i < n
        invariant
            n == kinds@.len(),
            kinds@ == spec_all_kinds(),
            i <= n,
            forall|j: int| 0 <= j < i ==> spec_crd_name(#[trigger] kinds@[j]) != name@,
        decreases n - i,
    {
        let k = kinds[i];
        if str_eq(crd_name(k), name) {
            assert(spec_all_kinds()[i as int] == k);
            return Some(k);
        }
        i = i + 1;
    }
    None
}

/// The line after which a definition's metadata begins.
pub const METADATA_ANCHOR: &'static str = "metadata:\n";

/// The Helm template inserted into a definition's metadata: the
/// "keep" resource policy and the chart's extra annotations and labels,
/// each when the chart's values ask for them.
pub const METADATA_INJECTION: &'static str = r#"  {{- if or .Values.crds.keep .Values.crds.annotations }}
  annotations:
    {{- if .Values.crds.keep }}
    helm.sh/resource-policy: keep
    {{- end }}
    {{- with .Values.crds.annotations }}
{{ toYaml . | indent 4 }}
    {{- end }}
  {{- end }}
  {{- with .Values.crds.additionalLabels }}
  labels:
{{ toYaml . | indent 4 }}
  {{- end }}
"#;

/// The line that opens the install guard.
pub const INSTALL_GUARD_OPEN: &'static str = "{{- if .Values.crds.install }}\n";

/// The line that closes the install guard.
pub const INSTALL_GUARD_CLOSE: &'static str = "{{- end }}\n";

/// `text` with `insert` put in at position `at`.
pub open spec fn insert_at(text: Seq<char>, at: int, insert: Seq<char>) -> Seq<char> {
    text.subrange(0, at) + insert + text.subrange(at, text.len() as int)
}

/// `text` inside the install guard, on lines of its own.
pub open spec fn guarded(text: Seq<char>) -> Seq<char> {
    INSTALL_GUARD_OPEN@ + text + (if text.len() > 0 && text.last() == '\n' { Seq::empty() } else { seq!['\n'] })
        + INSTALL_GUARD_CLOSE@
}

/// `s` followed by the characters of `src` from `from` up to `to`.
fn append_range(s: String, src: &str, from: usize, to: usize) -> (r: String)
    requires
        from <= to <= src@.len(),
    ensures
        r@ == s@ + src@.subrange(from as int, to as int),
{
    let part = src.substring_char(from, to);
    s.concat(part)
}

/// A definition templated for a Helm chart: the whole document guarded by
/// the chart's install switch, with the metadata template inserted right
/// after the first "metadata:" line. A document without that line is
/// guarded as it is.
pub fn wrap_for_helm(yaml: &str) -> (r: String)
    ensures
        (forall|j: int| !occurs_at(yaml@, METADATA_ANCHOR@, j)) ==> r@ == guarded(yaml@),
        forall|i: int|
            occurs_at(yaml@, METADATA_ANCHOR@, i) && (forall|j: int| 0 <= j < i ==> !occurs_at(yaml@, METADATA_ANCHOR@, j))
                ==> r@ == guarded(insert_at(yaml@, i + METADATA_ANCHOR@.len(), METADATA_INJECTION@)),
{
    let injected: String = match find_str(yaml, METADATA_ANCHOR) {
        Some(idx) => {
            let n = yaml.unicode_len();
            let at = idx + METADATA_ANCHOR.unicode_len();
            let head = append_range(String::new(), yaml, 0, at);
            let mid = head.concat(METADATA_INJECTION);
            let r = append_range(mid, yaml, at, n);
            proof {
                assert(yaml@.subrange(0, at as int) =~= Seq::<char>::empty() + yaml@.subrange(0, at as int));
                assert(r@ =~= insert_at(yaml@, at as int, METADATA_INJECTION@));
                assert forall|i: int|
                    occurs_at(yaml@, METADATA_ANCHOR@, i) && (forall|j: int| 0 <= j < i ==> !occurs_at(yaml@, METADATA_ANCHOR@, j))
                    implies i == idx by {
                    if i < idx {
                        assert(!occurs_at(yaml@, METADATA_ANCHOR@, i));
                    }
                    if idx < i {
                        assert(!occurs_at(yaml@, METADATA_ANCHOR@, idx as int));
                    }
                }
            }
            r
        },
        None => String::from_str(yaml),
    };
    let len = injected.as_str().unicode_len();
    let ends_with_newline = len > 0 && injected.as_str().get_char(len - 1) == '\n';
    let out = String::from_str(INSTALL_GUARD_OPEN).concat(injected.as_str());
    let out = if ends_with_newline { out } else { out.concat("\n") };
    let out = out.concat(INSTALL_GUARD_CLOSE);
    proof {
        reveal_strlit("\n");
        if ends_with_newline {
            assert(out@ =~= guarded(injected@));
        } else {
            assert(out@ =~= guarded(injected@));
        }
    }
    out
}

/// A number that tells the kinds' file names apart: the length and the
/// first two characters.
spec fn file_key(f: Seq<char>) -> int {
    f.len() * 65536 * 65536 + (f[0] as int) * 65536 + (f[1] as int)
}

/// A number that tells the kinds' names apart: the length and the eighth
/// character, when there is one.
spec fn name_key(n: Seq<char>) -> int {
    n.len() * 65536 + if n.len() > 7 { n[7] as int } else { 0 }
}

proof fn lemma_file_key(k: CrdKind)
    ensures
        file_key(spec_crd_file(k)) == match k {
            CrdKind::Sonarr => 47252177007int,
            CrdKind::SonarrAutoTag => 51545964661int,
            CrdKind::SonarrCustomFormat => 73020932213int,
            CrdKind::SonarrDelayProfile => 73020997733int,
            CrdKind::SonarrDownloadClient => 81610932335int,
            CrdKind::SonarrDownloadClientConfig => 107380736111int,
            CrdKind::SonarrImportList => 64431390829int,
            CrdKind::SonarrIndexer => 51546488942int,
            CrdKind::SonarrIndexerConfig => 77316292718int,
            CrdKind::SonarrLanguageProfile => 85906423905int,
            CrdKind::SonarrMediaManagementConfig => 111676293221int,
            CrdKind::SonarrMetadata => 55841718373int,
            CrdKind::SonarrNamingConfig => 73021653089int,
            CrdKind::SonarrNotification => 73021653103int,
            CrdKind::SonarrQualityDefinition => 94496686197int,
            CrdKind::SonarrQualityProfile => 81611784309int,
            CrdKind::SonarrRootFolder => 64431980655int,
            CrdKind::SonarrSeries => 47252176997int,
            CrdKind::SonarrTag => 34367340641int,
        },
{
    match k {
        CrdKind::Sonarr => { reveal_strlit("sonarr.yaml"); },
        CrdKind::SonarrAutoTag => { reveal_strlit("autotag.yaml"); },
        CrdKind::SonarrCustomFormat => { reveal_strlit("customformat.yaml"); },
        CrdKind::SonarrDelayProfile => { reveal_strlit("delayprofile.yaml"); },
        CrdKind::SonarrDownloadClient => { reveal_strlit("downloadclient.yaml"); },
        CrdKind::SonarrDownloadClientConfig => { reveal_strlit("downloadclientconfig.yaml"); },
        CrdKind::SonarrImportList => { reveal_strlit("importlist.yaml"); },
        CrdKind::SonarrIndexer => { reveal_strlit("indexer.yaml"); },
        CrdKind::SonarrIndexerConfig => { reveal_strlit("indexerconfig.yaml"); },
        CrdKind::SonarrLanguageProfile => { reveal_strlit("languageprofile.yaml"); },
        CrdKind::SonarrMediaManagementConfig => { reveal_strlit("mediamanagementconfig.yaml"); },
        CrdKind::SonarrMetadata => { reveal_strlit("metadata.yaml"); },
        CrdKind::SonarrNamingConfig => { reveal_strlit("namingconfig.yaml"); },
        CrdKind::SonarrNotification => { reveal_strlit("notification.yaml"); },
        CrdKind::SonarrQualityDefinition => { reveal_strlit("qualitydefinition.yaml"); },
        CrdKind::SonarrQualityProfile => { reveal_strlit("qualityprofile.yaml"); },
        CrdKind::SonarrRootFolder => { reveal_strlit("rootfolder.yaml"); },
        CrdKind::SonarrSeries => { reveal_strlit("series.yaml"); },
        CrdKind::SonarrTag => { reveal_strlit("tag.yaml"); },
    }
}

proof fn lemma_name_key(k: CrdKind)
    ensures
        name_key(spec_crd_name(k)) == match k {
            CrdKind::Sonarr => 393216int,
            CrdKind::SonarrAutoTag => 852085int,
            CrdKind::SonarrCustomFormat => 1179765int,
            CrdKind::SonarrDelayProfile => 1179749int,
            CrdKind::SonarrDownloadClient => 1310831int,
            CrdKind::SonarrDownloadClientConfig => 1704047int,
            CrdKind::SonarrImportList => 1048685int,
            CrdKind::SonarrIndexer => 852078int,
            CrdKind::SonarrIndexerConfig => 1245294int,
            CrdKind::SonarrLanguageProfile => 1376353int,
            CrdKind::SonarrMediaManagementConfig => 1769573int,
            CrdKind::SonarrMetadata => 917605int,
            CrdKind::SonarrNamingConfig => 1179745int,
            CrdKind::SonarrNotification => 1179759int,
            CrdKind::SonarrQualityDefinition => 1507445int,
            CrdKind::SonarrQualityProfile => 1310837int,
            CrdKind::SonarrRootFolder => 1048687int,
            CrdKind::SonarrSeries => 786533int,
            CrdKind::SonarrTag => 589921int,
        },
{
    match k {
        CrdKind::Sonarr => { reveal_strlit("Sonarr"); },
        CrdKind::SonarrAutoTag => { reveal_strlit("SonarrAutoTag"); },
        CrdKind::SonarrCustomFormat => { reveal_strlit("SonarrCustomFormat"); },
        CrdKind::SonarrDelayProfile => { reveal_strlit("SonarrDelayProfile"); },
        CrdKind::SonarrDownloadClient => { reveal_strlit("SonarrDownloadClient"); },
        CrdKind::SonarrDownloadClientConfig => { reveal_strlit("SonarrDownloadClientConfig"); },
        CrdKind::SonarrImportList => { reveal_strlit("SonarrImportList"); },
        CrdKind::SonarrIndexer => { reveal_strlit("SonarrIndexer"); },
        CrdKind::SonarrIndexerConfig => { reveal_strlit("SonarrIndexerConfig"); },
        CrdKind::SonarrLanguageProfile => { reveal_strlit("SonarrLanguageProfile"); },
        CrdKind::SonarrMediaManagementConfig => { reveal_strlit("SonarrMediaManagementConfig"); },
        CrdKind::SonarrMetadata => { reveal_strlit("SonarrMetadata"); },
        CrdKind::SonarrNamingConfig => { reveal_strlit("SonarrNamingConfig"); },
        CrdKind::SonarrNotification => { reveal_strlit("SonarrNotification"); },
        CrdKind::SonarrQualityDefinition => { reveal_strlit("SonarrQualityDefinition"); },
        CrdKind::SonarrQualityProfile => { reveal_strlit("SonarrQualityProfile"); },
        CrdKind::SonarrRootFolder => { reveal_strlit("SonarrRootFolder"); },
        CrdKind::SonarrSeries => { reveal_strlit("SonarrSeries"); },
        CrdKind::SonarrTag => { reveal_strlit("SonarrTag"); },
    }
}

/// Each kind is written to a file of its own, so no definition overwrites
/// another.
pub proof fn lemma_crd_files_distinct(a: CrdKind, b: CrdKind)
    requires
        spec_crd_file(a) == spec_crd_file(b),
    ensures
        a == b,
{
    lemma_file_key(a);
    lemma_file_key(b);
}

/// Each kind has a name of its own, so a name picks at most one kind.
pub proof fn lemma_crd_names_distinct(a: CrdKind, b: CrdKind)
    requires
        spec_crd_name(a) == spec_crd_name(b),
    ensures
        a == b,
{
    lemma_name_key(a);
    lemma_name_key(b);
}

} // verus!
