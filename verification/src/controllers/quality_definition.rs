//! The quality definition controller: Sonarr defines every quality
//! already, so the operator finds the definition of the spec's quality and
//! updates it; a definition is never created or deleted.

use vstd::prelude::*;
use crate::api::models::QualityDefinitionSummary;
use crate::crds::quality_definition::{quality_id_of, QualityName, SonarrQualityDefinitionSpec};
use crate::error::Error;
use crate::text::{concat3, string_of};

verus! {

/// The name of a quality as the operator writes it in messages.
pub open spec fn quality_name_text(t: QualityName) -> Seq<char> {
    match t {
        QualityName::Unknown => "Unknown"@,
        QualityName::Sdtv => "Sdtv"@,
        QualityName::Dvd => "Dvd"@,
        QualityName::Webdl480p => "Webdl480p"@,
        QualityName::Webrip480p => "Webrip480p"@,
        QualityName::Bluray480p => "Bluray480p"@,
        QualityName::Hdtv720p => "Hdtv720p"@,
        QualityName::Hdtv1080p => "Hdtv1080p"@,
        QualityName::RawHd => "RawHd"@,
        QualityName::Webdl720p => "Webdl720p"@,
        QualityName::Webrip720p => "Webrip720p"@,
        QualityName::Bluray720p => "Bluray720p"@,
        QualityName::Webdl1080p => "Webdl1080p"@,
        QualityName::Webrip1080p => "Webrip1080p"@,
        QualityName::Bluray1080p => "Bluray1080p"@,
        QualityName::Bluray1080pRemux => "Bluray1080pRemux"@,
        QualityName::Hdtv2160p => "Hdtv2160p"@,
        QualityName::Webdl2160p => "Webdl2160p"@,
        QualityName::Webrip2160p => "Webrip2160p"@,
        QualityName::Bluray2160p => "Bluray2160p"@,
        QualityName::Bluray2160pRemux => "Bluray2160pRemux"@,
    }
}

/// The name of a quality as the operator writes it in messages.
pub fn quality_name(t: &QualityName) -> (s: String)
    ensures
        s@ == quality_name_text(*t),
{
    match t {
        QualityName::Unknown => string_of("Unknown"),
        QualityName::Sdtv => string_of("Sdtv"),
        QualityName::Dvd => string_of("Dvd"),
        QualityName::Webdl480p => string_of("Webdl480p"),
        QualityName::Webrip480p => string_of("Webrip480p"),
        QualityName::Bluray480p => string_of("Bluray480p"),
        QualityName::Hdtv720p => string_of("Hdtv720p"),
        QualityName::Hdtv1080p => string_of("Hdtv1080p"),
        QualityName::RawHd => string_of("RawHd"),
        QualityName::Webdl720p => string_of("Webdl720p"),
        QualityName::Webrip720p => string_of("Webrip720p"),
        QualityName::Bluray720p => string_of("Bluray720p"),
        QualityName::Webdl1080p => string_of("Webdl1080p"),
        QualityName::Webrip1080p => string_of("Webrip1080p"),
        QualityName::Bluray1080p => string_of("Bluray1080p"),
        QualityName::Bluray1080pRemux => string_of("Bluray1080pRemux"),
        QualityName::Hdtv2160p => string_of("Hdtv2160p"),
        QualityName::Webdl2160p => string_of("Webdl2160p"),
        QualityName::Webrip2160p => string_of("Webrip2160p"),
        QualityName::Bluray2160p => string_of("Bluray2160p"),
        QualityName::Bluray2160pRemux => string_of("Bluray2160pRemux"),
    }
}

/// The quality with a given id, if any.
pub open spec fn quality_of_id(id: int) -> Option<QualityName> {
    if id == 0 { Some(QualityName::Unknown) }
    else if id == 1 { Some(QualityName::Sdtv) }
    else if id == 2 { Some(QualityName::Dvd) }
    else if id == 8 { Some(QualityName::Webdl480p) }
    else if id == 12 { Some(QualityName::Webrip480p) }
    else if id == 20 { Some(QualityName::Bluray480p) }
    else if id == 4 { Some(QualityName::Hdtv720p) }
    else if id == 9 { Some(QualityName::Hdtv1080p) }
    else if id == 10 { Some(QualityName::RawHd) }
    else if id == 5 { Some(QualityName::Webdl720p) }
    else if id == 14 { Some(QualityName::Webrip720p) }
    else if id == 6 { Some(QualityName::Bluray720p) }
    else if id == 3 { Some(QualityName::Webdl1080p) }
    else if id == 15 { Some(QualityName::Webrip1080p) }
    else if id == 7 { Some(QualityName::Bluray1080p) }
    else if id == 30 { Some(QualityName::Bluray1080pRemux) }
    else if id == 16 { Some(QualityName::Hdtv2160p) }
    else if id == 18 { Some(QualityName::Webdl2160p) }
    else if id == 17 { Some(QualityName::Webrip2160p) }
    else if id == 19 { Some(QualityName::Bluray2160p) }
    else if id == 31 { Some(QualityName::Bluray2160pRemux) }
    else { None }
}

/// Each quality has an id of its own: the id gives the quality back.
pub proof fn lemma_quality_id_identifies(q: QualityName)
    ensures
        quality_of_id(quality_id_of(q)) == Some(q),
{
}

/// Two qualities with the same id are the same quality.
pub proof fn lemma_quality_ids_distinct(a: QualityName, b: QualityName)
    requires
        quality_id_of(a) == quality_id_of(b),
    ensures
        a == b,
{
    lemma_quality_id_identifies(a);
    lemma_quality_id_identifies(b);
}

/// Index of the first definition of quality `qid`, or the length when
/// there is none.
pub open spec fn first_definition(defs: Seq<QualityDefinitionSummary>, qid: int) -> int
    decreases defs.len(),
{
    if defs.len() == 0 {
        0
    } else if defs[0].quality_id == Some(qid as i32) && 0 <= qid <= i32::MAX {
        0
    } else {
        1 + first_definition(defs.drop_first(), qid)
    }
}

proof fn lemma_first_definition(defs: Seq<QualityDefinitionSummary>, qid: int)
    requires
        0 <= qid <= i32::MAX,
    ensures
        0 <= first_definition(defs, qid) <= defs.len(),
        first_definition(defs, qid) < defs.len() ==> defs[first_definition(defs, qid)].quality_id == Some(qid as i32),
        forall|j: int| 0 <= j < first_definition(defs, qid) ==> #[trigger] defs[j].quality_id != Some(qid as i32),
    decreases defs.len(),
{
    if defs.len() > 0 && defs[0].quality_id != Some(qid as i32) {
        lemma_first_definition(defs.drop_first(), qid);
        assert forall|j: int| 0 <= j < first_definition(defs, qid) implies #[trigger] defs[j].quality_id != Some(qid as i32) by {
            if j > 0 {
                assert(defs[j] == defs.drop_first()[j - 1]);
            }
        }
    }
}

/// The update of an existing definition: which listed definition it is
/// (its quality and weight are sent back as they are), its id, and the
/// title to send.
pub struct QualityDefinitionUpdate {
    pub index: usize,
    pub id: i32,
    pub title: Option<Option<String>>,
}

/// The message when Sonarr has no definition for a quality.
pub open spec fn not_found_message(q: QualityName) -> Seq<char> {
    "Quality definition for "@ + quality_name_text(q) + " not found in Sonarr"@
}

/// The update for the spec's quality among the definitions Sonarr lists.
/// The first definition of that quality is updated, with the spec's title
/// when it sets one and the definition's own title otherwise. Without such
/// a definition the answer is an API error; with one that has no id, a
/// missing key.
pub fn quality_definition_update(
    spec: &SonarrQualityDefinitionSpec,
    defs: &Vec<QualityDefinitionSummary>,
) -> (r: Result<QualityDefinitionUpdate, Error>)
    ensures
        ({
            let i = first_definition(defs@, quality_id_of(spec.quality_name));
            if i == defs@.len() {
                r is Err && r->Err_0 is SonarrApiError
                    && r->Err_0->SonarrApiError_0@ == not_found_message(spec.quality_name)
            } else {
                match defs@[i].id {
                    None => r == Err::<QualityDefinitionUpdate, Error>(Error::MissingObjectKey("quality_definition.id")),
                    Some(id) => r is Ok && r->Ok_0.index == i && r->Ok_0.id == id
                        && r->Ok_0.title == match spec.title {
                            Some(t) => Some(Some(t)),
                            None => defs@[i].title,
                        },
                }
            }
        }),
{
    let qid = spec.quality_name.to_quality_id();
    let ghost q = quality_id_of(spec.quality_name);
    proof {
        lemma_first_definition(defs@, q);
    }
    let n = defs.len();
    let mut i: usize = 0;
    while i < n
        invariant
            n == defs@.len(),
            i <= n,
            qid == q,
            q == quality_id_of(spec.quality_name),
            0 <= q <= i32::MAX,
            forall|j: int| 0 <= j < i ==> #[trigger] defs@[j].quality_id != Some(qid),
            0 <= first_definition(defs@, q) <= defs@.len(),
            first_definition(defs@, q) < defs@.len() ==> defs@[first_definition(defs@, q)].quality_id == Some(qid),
            forall|j: int| 0 <= j < first_definition(defs@, q) ==> #[trigger] defs@[j].quality_id != Some(qid),
        decreases n - i,
    {
        if defs[i].quality_id == Some(qid) {
            assert(first_definition(defs@, q) == i);
            let d = &defs[i];
            let title: Option<Option<String>> = match &spec.title {
                Some(t) => Some(Some(t.clone())),
                None => match &d.title {
                    Some(Some(s)) => Some(Some(s.clone())),
                    Some(None) => Some(None),
                    None => None,
                },
            };
            assert(title == match spec.title {
                Some(t) => Some(Some(t)),
                None => defs@[i as int].title,
            });
            return match d.id {
                None => Err(Error::MissingObjectKey("quality_definition.id")),
                Some(id) => Ok(QualityDefinitionUpdate { index: i, id, title }),
            };
        }
        i = i + 1;
    }
    assert(first_definition(defs@, q) == n);
    let name = quality_name(&spec.quality_name);
    Err(Error::SonarrApiError(concat3("Quality definition for ", name.as_str(), " not found in Sonarr")))
}

} // verus!
