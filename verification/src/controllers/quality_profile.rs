//! The quality profile controller: the profile it sends to Sonarr lists
//! every quality and every custom format Sonarr knows. The qualities the
//! spec allows come first, as groups, then every other quality as not
//! allowed; the whole list is then reversed, from the best quality down.
//! The spec's custom formats keep their scores and every other one scores
//! zero.

use vstd::prelude::*;
use crate::api::models::{
    ListedItem, ProfileFormatItemResource, Quality, QualityDefinitionSummary,
    QualityProfileQualityItemResource, QualityProfileResource, QualityProfileSubItem,
};
use crate::crds::quality_profile::{FormatItem, QualityGroup, SonarrQualityProfileSpec};
use crate::crds::quality_profile::Quality as SpecQuality;
use crate::text::clone_opt_string;

verus! {

/// The quality sent for a quality of the spec.
pub open spec fn quality_of(q: SpecQuality) -> Quality {
    Quality { id: q.id, name: q.name }
}

/// The ids of a list of qualities, in order, skipping those without one.
pub open spec fn quality_ids(qs: Seq<SpecQuality>) -> Seq<i32>
    decreases qs.len(),
{
    if qs.len() == 0 {
        Seq::empty()
    } else {
        let rest = quality_ids(qs.drop_last());
        match qs.last().id {
            Some(id) => rest.push(id),
            None => rest,
        }
    }
}

/// The quality ids the spec allows, group after group.
pub open spec fn allowed_ids(groups: Seq<QualityGroup>) -> Seq<i32>
    decreases groups.len(),
{
    if groups.len() == 0 {
        Seq::empty()
    } else {
        allowed_ids(groups.drop_last()) + quality_ids(groups.last().qualities@)
    }
}

/// The quality ids of the definitions that the spec does not allow, in the
/// order of the definitions.
pub open spec fn unlisted_quality_ids(defs: Seq<QualityDefinitionSummary>, allowed: Seq<i32>) -> Seq<i32>
    decreases defs.len(),
{
    if defs.len() == 0 {
        Seq::empty()
    } else {
        let rest = unlisted_quality_ids(defs.drop_last(), allowed);
        match defs.last().quality_id {
            Some(id) => if allowed.contains(id) { rest } else { rest.push(id) },
            None => rest,
        }
    }
}

/// The item sent for a group of the spec. A group of one quality is that
/// quality itself; any other group lists its qualities as allowed.
pub open spec fn group_item_planned(it: QualityProfileQualityItemResource, g: QualityGroup) -> bool {
    &&& it.allowed
    &&& if g.qualities@.len() == 1 {
        &&& it.id is None
        &&& it.name is None
        &&& it.quality == Some(quality_of(g.qualities@[0]))
        &&& it.items is None
    } else {
        &&& it.id == g.id
        &&& it.name == g.name
        &&& it.quality is None
        &&& it.items is Some
        &&& it.items->0@.len() == g.qualities@.len()
        &&& forall|k: int| 0 <= k < g.qualities@.len() ==> #[trigger] it.items->0@[k]
            == (QualityProfileSubItem { allowed: true, quality: quality_of(g.qualities@[k]) })
    }
}

/// The item sent for a quality the spec does not allow.
pub open spec fn unlisted_item_planned(it: QualityProfileQualityItemResource, id: i32) -> bool {
    &&& !it.allowed
    &&& it.id is None
    &&& it.name is None
    &&& it.quality == Some(Quality { id: Some(id), name: None })
    &&& it.items is Some
    &&& it.items->0@.len() == 0
}

/// The full list of quality items for the spec's groups and the qualities
/// Sonarr defines: groups first, then the qualities not allowed, the whole
/// list reversed.
pub open spec fn quality_items_planned(
    r: Seq<QualityProfileQualityItemResource>,
    groups: Seq<QualityGroup>,
    defs: Seq<QualityDefinitionSummary>,
) -> bool {
    let rest = unlisted_quality_ids(defs, allowed_ids(groups));
    let n = groups.len() + rest.len();
    &&& r.len() == n
    &&& forall|i: int| 0 <= i < groups.len() ==> group_item_planned(r[n - 1 - i], #[trigger] groups[i])
    &&& forall|k: int| 0 <= k < rest.len() ==> unlisted_item_planned(r[n - 1 - groups.len() - k], #[trigger] rest[k])
}

fn quality_item(q: &SpecQuality) -> (r: Quality)
    ensures
        r == quality_of(*q),
{
    Quality { id: q.id, name: clone_opt_string(&q.name) }
}

fn group_item(g: &QualityGroup) -> (it: QualityProfileQualityItemResource)
    ensures
        group_item_planned(it, *g),
{
    if g.qualities.len() == 1 {
        QualityProfileQualityItemResource {
            id: None,
            name: None,
            allowed: true,
            quality: Some(quality_item(&g.qualities[0])),
            items: None,
        }
    } else {
        let mut subs: Vec<QualityProfileSubItem> = Vec::new();
        let n = g.qualities.len();
        let mut k: usize = 0;
        while k < n
            invariant
                n == g.qualities@.len(),
                k <= n,
                subs@.len() == k,
                forall|j: int| 0 <= j < k ==> #[trigger] subs@[j]
                    == (QualityProfileSubItem { allowed: true, quality: quality_of(g.qualities@[j]) }),
            decreases n - k,
        {
            subs.push(QualityProfileSubItem { allowed: true, quality: quality_item(&g.qualities[k]) });
            k = k + 1;
        }
        QualityProfileQualityItemResource {
            id: g.id,
            name: clone_opt_string(&g.name),
            allowed: true,
            quality: None,
            items: Some(subs),
        }
    }
}

/// The quality ids the spec allows.
pub fn collect_allowed_ids(groups: &Vec<QualityGroup>) -> (r: Vec<i32>)
    ensures
        r@ == allowed_ids(groups@),
{
    let mut r: Vec<i32> = Vec::new();
    let n = groups.len();
    let mut i: usize = 0;
    while i < n
        invariant
            n == groups@.len(),
            i <= n,
            r@ == allowed_ids(groups@.take(i as int)),
        decreases n - i,
    {
        let qs = &groups[i].qualities;
        let m = qs.len();
        let ghost base = r@;
        let mut k: usize = 0;
        while k < m
            invariant
                m == qs@.len(),
                k <= m,
                r@ == base + quality_ids(qs@.take(k as int)),
            decreases m - k,
        {
            proof {
                assert(qs@.take(k + 1).drop_last() =~= qs@.take(k as int));
            }
            match qs[k].id {
                Some(id) => {
                    r.push(id);
                    assert(r@ =~= base + quality_ids(qs@.take(k + 1)));
                },
                None => {},
            }
            k = k + 1;
        }
        proof {
            assert(qs@.take(m as int) =~= qs@);
            assert(groups@.take(i + 1).drop_last() =~= groups@.take(i as int));
            assert(groups@.take(i + 1).last() == groups@[i as int]);
        }
        i = i + 1;
    }
    assert(groups@.take(n as int) =~= groups@);
    r
}

/// Whether `x` is among `v`.
pub fn contains_id(v: &Vec<i32>, x: i32) -> (r: bool)
    ensures
        r == v@.contains(x),
{
    let n = v.len();
    let mut i: usize = 0;
    while i < n
        invariant
            n == v@.len(),
            i <= n,
            forall|j: int| 0 <= j < i ==> v@[j] != x,
        decreases n - i,
    {
        if v[i] == x {
            assert(v@[i as int] == x);
            return true;
        }
        i = i + 1;
    }
    false
}

/// The items of a vector in reverse order.
fn reversed<T>(v: Vec<T>) -> (r: Vec<T>)
    ensures
        r@.len() == v@.len(),
        forall|j: int| 0 <= j < v@.len() ==> #[trigger] r@[j] == v@[v@.len() - 1 - j],
{
    let ghost orig = v@;
    let mut v = v;
    let mut r: Vec<T> = Vec::new();
    while v.len() > 0
        invariant
            v@ == orig.take(v@.len() as int),
            r@.len() + v@.len() == orig.len(),
            forall|j: int| 0 <= j < r@.len() ==> #[trigger] r@[j] == orig[orig.len() - 1 - j],
        decreases v@.len(),
    {
        let x = v.pop().unwrap();
        r.push(x);
        proof {
            assert(v@ =~= orig.take(v@.len() as int));
        }
    }
    r
}

/// The quality items of a profile: the spec's groups as allowed items,
/// then every quality Sonarr defines that no group allows, as a
/// not-allowed item; the whole list reversed, from the best quality down.
pub fn build_quality_items(
    groups: &Vec<QualityGroup>,
    defs: &Vec<QualityDefinitionSummary>,
) -> (r: Vec<QualityProfileQualityItemResource>)
    ensures
        quality_items_planned(r@, groups@, defs@),
{
    let allowed = collect_allowed_ids(groups);
    let mut fwd: Vec<QualityProfileQualityItemResource> = Vec::new();
    let n = groups.len();
    let mut i: usize = 0;
    while i < n
        invariant
            n == groups@.len(),
            i <= n,
            fwd@.len() == i,
            forall|j: int| 0 <= j < i ==> group_item_planned(fwd@[j], #[trigger] groups@[j]),
        decreases n - i,
    {
        fwd.push(group_item(&groups[i]));
        i = i + 1;
    }
    let m = defs.len();
    let mut d: usize = 0;
    while d < m
        invariant
            n == groups@.len(),
            m == defs@.len(),
            d <= m,
            allowed@ == allowed_ids(groups@),
            fwd@.len() == n + unlisted_quality_ids(defs@.take(d as int), allowed@).len(),
            forall|j: int| 0 <= j < n ==> group_item_planned(fwd@[j], #[trigger] groups@[j]),
            forall|k: int| 0 <= k < unlisted_quality_ids(defs@.take(d as int), allowed@).len()
                ==> unlisted_item_planned(fwd@[n + k], #[trigger] unlisted_quality_ids(defs@.take(d as int), allowed@)[k]),
        decreases m - d,
    {
        let ghost before = unlisted_quality_ids(defs@.take(d as int), allowed@);
        proof {
            assert(defs@.take(d + 1).drop_last() =~= defs@.take(d as int));
            assert(defs@.take(d + 1).last() == defs@[d as int]);
        }
        match defs[d].quality_id {
            Some(id) => {
                if !contains_id(&allowed, id) {
                    fwd.push(QualityProfileQualityItemResource {
                        id: None,
                        name: None,
                        allowed: false,
                        quality: Some(Quality { id: Some(id), name: None }),
                        items: Some(Vec::new()),
                    });
                    let ghost after = unlisted_quality_ids(defs@.take(d + 1), allowed@);
                    assert(after == before.push(id));
                    assert forall|k: int| 0 <= k < after.len() implies
                        unlisted_item_planned(fwd@[n + k], #[trigger] after[k]) by {
                        if k < before.len() {
                            assert(after[k] == before[k]);
                        }
                    }
                }
            },
            None => {},
        }
        d = d + 1;
    }
    proof {
        assert(defs@.take(m as int) =~= defs@);
    }
    let r = reversed(fwd);
    proof {
        let rest = unlisted_quality_ids(defs@, allowed_ids(groups@));
        let total = n + rest.len();
        assert forall|i: int| 0 <= i < groups@.len() implies group_item_planned(r@[total - 1 - i], #[trigger] groups@[i]) by {
            assert(r@[total - 1 - i] == fwd@[i]);
        }
        assert forall|k: int| 0 <= k < rest.len() implies unlisted_item_planned(r@[total - 1 - n - k], #[trigger] rest[k]) by {
            assert(r@[total - 1 - n - k] == fwd@[n + k]);
        }
    }
    r
}

/// The custom format ids the spec scores, in order.
pub open spec fn scored_ids(items: Seq<FormatItem>) -> Seq<i32>
    decreases items.len(),
{
    if items.len() == 0 {
        Seq::empty()
    } else {
        let rest = scored_ids(items.drop_last());
        match items.last().format {
            Some(id) => rest.push(id),
            None => rest,
        }
    }
}

/// The ids of the custom formats the spec does not score, in the order
/// Sonarr lists them.
pub open spec fn unscored_ids(formats: Seq<ListedItem>, scored: Seq<i32>) -> Seq<i32>
    decreases formats.len(),
{
    if formats.len() == 0 {
        Seq::empty()
    } else {
        let rest = unscored_ids(formats.drop_last(), scored);
        match formats.last().id {
            Some(id) => if scored.contains(id) { rest } else { rest.push(id) },
            None => rest,
        }
    }
}

/// The format item sent for a format item of the spec.
pub open spec fn format_item_of(fi: FormatItem) -> ProfileFormatItemResource {
    ProfileFormatItemResource { format: fi.format, name: fi.name, score: fi.score }
}

/// The full list of format items: the spec's, then every other custom
/// format with score zero.
pub open spec fn format_items_planned(r: Seq<ProfileFormatItemResource>, items: Seq<FormatItem>, formats: Seq<ListedItem>) -> bool {
    let rest = unscored_ids(formats, scored_ids(items));
    &&& r.len() == items.len() + rest.len()
    &&& forall|j: int| 0 <= j < items.len() ==> r[j] == format_item_of(#[trigger] items[j])
    &&& forall|k: int| 0 <= k < rest.len() ==> r[items.len() + k]
        == (ProfileFormatItemResource { format: Some(#[trigger] rest[k]), name: None, score: 0 })
}

/// The format items of a profile: the spec's with their scores, then
/// every custom format Sonarr lists that the spec does not score, with
/// score zero.
pub fn build_format_items(items: &Vec<FormatItem>, formats: &Vec<ListedItem>) -> (r: Vec<ProfileFormatItemResource>)
    ensures
        format_items_planned(r@, items@, formats@),
{
    let mut r: Vec<ProfileFormatItemResource> = Vec::new();
    let mut used: Vec<i32> = Vec::new();
    let n = items.len();
    let mut i: usize = 0;
    while i < n
        invariant
            n == items@.len(),
            i <= n,
            r@.len() == i,
            used@ == scored_ids(items@.take(i as int)),
            forall|j: int| 0 <= j < i ==> r@[j] == format_item_of(#[trigger] items@[j]),
        decreases n - i,
    {
        let fi = &items[i];
        r.push(ProfileFormatItemResource { format: fi.format, name: clone_opt_string(&fi.name), score: fi.score });
        proof {
            assert(items@.take(i + 1).drop_last() =~= items@.take(i as int));
            assert(items@.take(i + 1).last() == items@[i as int]);
        }
        match fi.format {
            Some(id) => used.push(id),
            None => {},
        }
        i = i + 1;
    }
    assert(items@.take(n as int) =~= items@);
    let m = formats.len();
    let mut d: usize = 0;
    while d < m
        invariant
            n == items@.len(),
            m == formats@.len(),
            d <= m,
            used@ == scored_ids(items@),
            r@.len() == n + unscored_ids(formats@.take(d as int), used@).len(),
            forall|j: int| 0 <= j < n ==> r@[j] == format_item_of(#[trigger] items@[j]),
            forall|k: int| 0 <= k < unscored_ids(formats@.take(d as int), used@).len() ==> r@[n + k]
                == (ProfileFormatItemResource { format: Some(#[trigger] unscored_ids(formats@.take(d as int), used@)[k]), name: None, score: 0 }),
        decreases m - d,
    {
        let ghost before = unscored_ids(formats@.take(d as int), used@);
        proof {
            assert(formats@.take(d + 1).drop_last() =~= formats@.take(d as int));
            assert(formats@.take(d + 1).last() == formats@[d as int]);
        }
        match formats[d].id {
            Some(id) => {
                if !contains_id(&used, id) {
                    r.push(ProfileFormatItemResource { format: Some(id), name: None, score: 0 });
                    let ghost after = unscored_ids(formats@.take(d + 1), used@);
                    assert(after == before.push(id));
                    assert forall|k: int| 0 <= k < after.len() implies r@[n + k]
                        == (ProfileFormatItemResource { format: Some(#[trigger] after[k]), name: None, score: 0 }) by {
                        if k < before.len() {
                            assert(after[k] == before[k]);
                        }
                    }
                }
            },
            None => {},
        }
        d = d + 1;
    }
    assert(formats@.take(m as int) =~= formats@);
    r
}

/// The profile to send: the spec's settings, the full item lists, and
/// the recorded id for an update. The minimum upgrade format score is 1
/// when the spec sets none.
pub fn quality_profile_payload(
    spec: &SonarrQualityProfileSpec,
    id: Option<i32>,
    items: Vec<QualityProfileQualityItemResource>,
    format_items: Vec<ProfileFormatItemResource>,
) -> (p: QualityProfileResource)
    ensures
        p.id == id,
        p.name == spec.name,
        p.upgrade_allowed == spec.upgrade_allowed,
        p.cutoff == spec.cutoff,
        p.cutoff_format_score == spec.cutoff_format_score,
        p.min_format_score == spec.min_format_score,
        p.min_upgrade_format_score == match spec.min_upgrade_format_score {
            Some(s) => s,
            None => 1,
        },
        p.items == items,
        p.format_items == format_items,
{
    QualityProfileResource {
        id,
        name: spec.name.clone(),
        upgrade_allowed: spec.upgrade_allowed,
        cutoff: spec.cutoff,
        cutoff_format_score: spec.cutoff_format_score,
        min_format_score: spec.min_format_score,
        min_upgrade_format_score: match spec.min_upgrade_format_score {
            Some(s) => s,
            None => 1,
        },
        items,
        format_items,
    }
}

/// Every quality Sonarr defines ends up in a profile: either some group of
/// the spec allows it, or it is listed as not allowed.
pub proof fn lemma_every_quality_listed(groups: Seq<QualityGroup>, defs: Seq<QualityDefinitionSummary>, d: int)
    requires
        0 <= d < defs.len(),
        defs[d].quality_id is Some,
    ensures
        allowed_ids(groups).contains(defs[d].quality_id->0)
            || unlisted_quality_ids(defs, allowed_ids(groups)).contains(defs[d].quality_id->0),
    decreases defs.len(),
{
    let allowed = allowed_ids(groups);
    let id = defs[d].quality_id->0;
    let rest = unlisted_quality_ids(defs.drop_last(), allowed);
    if d == defs.len() - 1 {
        if !allowed.contains(id) {
            assert(unlisted_quality_ids(defs, allowed) == rest.push(id));
            assert(rest.push(id)[rest.len() as int] == id);
        }
    } else {
        assert(defs.drop_last()[d] == defs[d]);
        lemma_every_quality_listed(groups, defs.drop_last(), d);
        if rest.contains(id) {
            let k = choose|k: int| 0 <= k < rest.len() && rest[k] == id;
            match defs.last().quality_id {
                Some(x) => if !allowed.contains(x) {
                    assert(unlisted_quality_ids(defs, allowed)[k] == id);
                },
                None => {},
            }
        }
    }
}

/// No quality is listed as not allowed that a group of the spec allows.
pub proof fn lemma_unlisted_not_allowed(defs: Seq<QualityDefinitionSummary>, allowed: Seq<i32>, k: int)
    requires
        0 <= k < unlisted_quality_ids(defs, allowed).len(),
    ensures
        !allowed.contains(unlisted_quality_ids(defs, allowed)[k]),
    decreases defs.len(),
{
    let rest = unlisted_quality_ids(defs.drop_last(), allowed);
    if k < rest.len() {
        lemma_unlisted_not_allowed(defs.drop_last(), allowed, k);
        match defs.last().quality_id {
            Some(x) => if !allowed.contains(x) {
                assert(unlisted_quality_ids(defs, allowed)[k] == rest[k]);
            },
            None => {},
        }
    }
}

/// Every custom format Sonarr lists ends up in a profile: either the spec
/// scores it, or it is listed with score zero.
pub proof fn lemma_every_format_listed(items: Seq<FormatItem>, formats: Seq<ListedItem>, d: int)
    requires
        0 <= d < formats.len(),
        formats[d].id is Some,
    ensures
        scored_ids(items).contains(formats[d].id->0)
            || unscored_ids(formats, scored_ids(items)).contains(formats[d].id->0),
    decreases formats.len(),
{
    let scored = scored_ids(items);
    let id = formats[d].id->0;
    let rest = unscored_ids(formats.drop_last(), scored);
    if d == formats.len() - 1 {
        if !scored.contains(id) {
            assert(unscored_ids(formats, scored) == rest.push(id));
            assert(rest.push(id)[rest.len() as int] == id);
        }
    } else {
        assert(formats.drop_last()[d] == formats[d]);
        lemma_every_format_listed(items, formats.drop_last(), d);
        if rest.contains(id) {
            let k = choose|k: int| 0 <= k < rest.len() && rest[k] == id;
            match formats.last().id {
                Some(x) => if !scored.contains(x) {
                    assert(unscored_ids(formats, scored)[k] == id);
                },
                None => {},
            }
        }
    }
}

} // verus!
